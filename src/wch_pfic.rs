//! Register writes to the WCH programmable fast interrupt controller. Each
//! operation is computed here as the single write it takes; the platform
//! layer performs it.
use vstd::prelude::*;
use crate::task::InterruptControl;

verus! {

/// The PFIC's interrupt number of the system timer.
pub const SYSTICK_INTERRUPT: usize = 12;

/// The PFIC's interrupt number of the software interrupt.
pub const SOFTWARE_INTERRUPT: usize = 14;

/// The register banks of the PFIC, each one bit per interrupt.
#[derive(Clone, Copy, Debug, PartialEq, Eq, Structural)]
pub enum PficRegister {
    /// Interrupt enable set.
    Ienr,
    /// Interrupt enable clear.
    Irer,
    /// Interrupt pending set.
    Ipsr,
    /// Interrupt pending clear.
    Iprr,
}

/// One write: `mask` to word `word` of a register bank.
#[derive(Clone, Copy, Debug, PartialEq, Eq, Structural)]
pub struct PficWrite {
    pub register: PficRegister,
    pub word: usize,
    pub mask: u32,
}

/// The write that sets the bit of `interrupt` in `register`.
pub open spec fn spec_write(register: PficRegister, interrupt: usize) -> PficWrite {
    PficWrite { register, word: interrupt / 32, mask: (1u32 << (interrupt % 32) as u32) }
}

fn write_bit(register: PficRegister, interrupt: usize) -> (r: PficWrite)
    ensures
        r == spec_write(register, interrupt),
{
    let enable_word = interrupt / 32;
    let enable_bit = (interrupt % 32) as u32;
    PficWrite { register, word: enable_word, mask: 1u32 << enable_bit }
}

/// Disables an interrupt.
pub fn disable_interrupt(interrupt: usize) -> (r: PficWrite)
    ensures
        r == spec_write(PficRegister::Irer, interrupt),
{
    write_bit(PficRegister::Irer, interrupt)
}

/// Enables an interrupt.
pub fn enable_interrupt(interrupt: usize) -> (r: PficWrite)
    ensures
        r == spec_write(PficRegister::Ienr, interrupt),
{
    write_bit(PficRegister::Ienr, interrupt)
}

/// Marks an interrupt pending.
pub fn set_pending_interrupt(interrupt: usize) -> (r: PficWrite)
    ensures
        r == spec_write(PficRegister::Ipsr, interrupt),
{
    write_bit(PficRegister::Ipsr, interrupt)
}

/// Clears a pending interrupt.
pub fn clear_pending_interrupt(interrupt: usize) -> (r: PficWrite)
    ensures
        r == spec_write(PficRegister::Iprr, interrupt),
{
    write_bit(PficRegister::Iprr, interrupt)
}

/// Returns an interrupt to its initial state: disabled, nothing pending.
pub fn reset_interrupt(interrupt: usize) -> (r: (PficWrite, PficWrite))
    ensures
        r.0 == spec_write(PficRegister::Irer, interrupt),
        r.1 == spec_write(PficRegister::Iprr, interrupt),
{
    (disable_interrupt(interrupt), clear_pending_interrupt(interrupt))
}

/// The write for an interrupt control request: Disable disables, Enable and
/// Complete re-enable.
pub fn interrupt_control(interrupt: usize, control: InterruptControl) -> (r: PficWrite)
    ensures
        r == spec_write(
            if control == InterruptControl::Disable {
                PficRegister::Irer
            } else {
                PficRegister::Ienr
            },
            interrupt,
        ),
{
    match control {
        InterruptControl::Disable => disable_interrupt(interrupt),
        InterruptControl::Enable => enable_interrupt(interrupt),
        InterruptControl::Complete => enable_interrupt(interrupt),
    }
}

/// Raises the software interrupt that requests a reschedule.
pub fn set_software_interrupt() -> (r: PficWrite)
    ensures
        r == spec_write(PficRegister::Ipsr, SOFTWARE_INTERRUPT),
{
    set_pending_interrupt(SOFTWARE_INTERRUPT)
}

/// Clears the reschedule request.
pub fn clear_software_interrupt() -> (r: PficWrite)
    ensures
        r == spec_write(PficRegister::Iprr, SOFTWARE_INTERRUPT),
{
    clear_pending_interrupt(SOFTWARE_INTERRUPT)
}

/// Raises the timer interrupt.
pub fn set_timer_interrupt() -> (r: PficWrite)
    ensures
        r == spec_write(PficRegister::Ipsr, SYSTICK_INTERRUPT),
{
    set_pending_interrupt(SYSTICK_INTERRUPT)
}

/// Clears a pending timer interrupt.
pub fn clear_timer_interrupt() -> (r: PficWrite)
    ensures
        r == spec_write(PficRegister::Iprr, SYSTICK_INTERRUPT),
{
    clear_pending_interrupt(SYSTICK_INTERRUPT)
}

} // verus!
