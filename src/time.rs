//! Tick arithmetic and the single hardware deadline shared by all tasks.
use vstd::prelude::*;
use vstd::arithmetic::power2::{lemma2_to64, pow2};
use vstd::bits::lemma_u128_shr_is_div;
use crate::task::{evaluate_timers, timers_done, Schedule, TaskId, TaskTable};

verus! {

/// Microseconds in a second.
pub const US_PER_S: u64 = 1_000_000;

/// The deadline that never expires: a disabled timer.
pub const NO_DEADLINE: u64 = 0xFFFF_FFFF_FFFF_FFFF;

/// The clock of the target: its tick rate, and the length of a tick in
/// microseconds as a 64-bit binary fraction.
#[derive(Clone, Copy, Debug, PartialEq, Eq, Structural)]
pub struct Clock {
    pub us_per_tick: u64,
    pub tick_frequency: u32,
}

/// The high 64 bits of the 128-bit product.
pub open spec fn spec_mul_high(lhs: u64, rhs: u64) -> u64 {
    ((lhs as int * rhs as int) / 0x1_0000_0000_0000_0000) as u64
}

/// Ticks in `us` microseconds at `tick_frequency` Hz, rounded down through a
/// fixed-point scale of 2^64 / 10^6.
pub open spec fn spec_us_to_ticks(us: u32, tick_frequency: u32) -> u64 {
    spec_mul_high((us as int * tick_frequency as int) as u64, (0xFFFF_FFFF_FFFF_FFFFu64 / US_PER_S) as u64)
}

/// Microseconds in `ticks` ticks.
pub open spec fn spec_ticks_to_us(ticks: u64, us_per_tick: u64) -> u64 {
    spec_mul_high(ticks, us_per_tick)
}

/// Multiplies two u64 integers and returns the high 64 bits of the result.
pub fn u64_mul_high(lhs: u64, rhs: u64) -> (r: u64)
    ensures
        r == spec_mul_high(lhs, rhs),
{
    assert(lhs as int * rhs as int <= 0xFFFF_FFFF_FFFF_FFFF * 0xFFFF_FFFF_FFFF_FFFF) by (nonlinear_arith)
        requires
            lhs <= 0xFFFF_FFFF_FFFF_FFFFu64,
            rhs <= 0xFFFF_FFFF_FFFF_FFFFu64,
    ;
    let product: u128 = (lhs as u128) * (rhs as u128);
    proof {
        lemma_u128_shr_is_div(product, 64);
        lemma2_to64();
    }
    (product >> 64u128) as u64
}

/// Converts a tick count to microseconds.
pub fn ticks_to_us(ticks: u64, clock: Clock) -> (r: u64)
    ensures
        r == spec_ticks_to_us(ticks, clock.us_per_tick),
{
    u64_mul_high(ticks, clock.us_per_tick)
}

/// Converts microseconds to ticks (rounded down).
pub fn us_to_ticks(us: u32, clock: Clock) -> (r: u64)
    ensures
        r == spec_us_to_ticks(us, clock.tick_frequency),
{
    assert(us as int * clock.tick_frequency as int <= 0xFFFF_FFFF * 0xFFFF_FFFF) by (nonlinear_arith)
        requires
            us <= 0xFFFF_FFFFu32,
            clock.tick_frequency <= 0xFFFF_FFFFu32,
    ;
    u64_mul_high((us as u64) * (clock.tick_frequency as u64), u64::MAX / US_PER_S)
}

/// The hardware deadline after a request for `deadline`: the sooner of the
/// two wins.
pub open spec fn spec_merged_deadline(programmed: u64, deadline: u64) -> u64 {
    if deadline < programmed {
        deadline
    } else {
        programmed
    }
}

/// Reprograms the shared hardware deadline when `deadline` is sooner than
/// the one programmed now.
pub fn update_deadline(programmed: &mut u64, deadline: u64)
    ensures
        *final(programmed) == spec_merged_deadline(*old(programmed), deadline),
{
    if deadline < *programmed {
        *programmed = deadline;
    }
}

} // verus!

verus! {

/// Handles the expiry of the hardware timer at tick `now_ticks`, taken
/// while `task_idx` ran: every task's timer is evaluated.
pub fn handle_timer_expiration(table: &mut TaskTable, task_idx: TaskId, now_ticks: u64) -> (r: Schedule)
    requires
        old(table).wf(),
    ensures
        final(table).wf(),
        timers_done(*old(table), *final(table), task_idx, now_ticks, r),
{
    evaluate_timers(table, task_idx, now_ticks)
}

} // verus!
