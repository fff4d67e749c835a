//! The trap entry decision: which handler a hardware trap goes to, which
//! task runs next, and whether the full register set must be restored.
use vstd::prelude::*;
use crate::syscall::{dispatched, handle_syscall, pc_advanced};
use crate::task::{
    any_in_state, find_preferred_task, first_in_priority, handle_interrupt, interrupt_disabled, interrupt_done, timers_done, Schedule, Task, TaskId, TaskState, TaskTable, NUM_TASKS,
};
use crate::time::{handle_timer_expiration, NO_DEADLINE};
use crate::descriptor::NUM_PMP_ENTRIES;

verus! {

/// The interrupt flag of a trap cause.
pub const INTERRUPT_BIT: u32 = 0x8000_0000;

/// A system call from user mode.
pub const ENVIRONMENT_CALL_FROM_U_MODE: u32 = 0x0000_0008;

/// Interrupt causes of standard RISC-V cores (with a PLIC and an ACLINT).
pub const MACHINE_SOFTWARE_INTERRUPT: u32 = 0x8000_0003;
pub const MACHINE_TIMER_INTERRUPT: u32 = 0x8000_0007;
pub const MACHINE_EXTERNAL_INTERRUPT: u32 = 0x8000_000b;

/// Interrupt causes of WCH V4C cores, which number their interrupts
/// differently: each external interrupt has a cause of its own from
/// WCH_EXTERNAL_INTERRUPT_BASE on.
pub const WCH_MACHINE_TIMER_INTERRUPT: u32 = 0x8000_000c;
pub const WCH_MACHINE_SOFTWARE_INTERRUPT: u32 = 0x8000_000e;
pub const WCH_EXTERNAL_INTERRUPT_BASE: u32 = 0x8000_0010;

pub open spec fn spec_is_interrupt(cause: u32) -> bool {
    cause & INTERRUPT_BIT != 0
}

/// Whether a trap cause is an interrupt.
pub fn is_interrupt(cause: u32) -> (r: bool)
    ensures
        r == spec_is_interrupt(cause),
{
    cause & INTERRUPT_BIT != 0
}

/// Whether a trap cause is a synchronous exception.
pub fn is_exception(cause: u32) -> (r: bool)
    ensures
        r == !spec_is_interrupt(cause),
{
    !is_interrupt(cause)
}

/// The interrupt numbering of the core.
#[derive(Clone, Copy, Debug, PartialEq, Eq, Structural)]
pub enum Family {
    /// Standard numbering; external interrupts are claimed from a PLIC.
    Generic,
    /// WCH V4C numbering; the cause names the external interrupt.
    WchV4c,
}

/// What a trap is.
#[derive(Clone, Copy, Debug, PartialEq, Eq, Structural)]
pub enum TrapCause {
    /// A system call.
    Syscall,
    /// The software interrupt that requests a reschedule.
    Reschedule,
    /// The timer.
    Timer,
    /// An external interrupt; on WCH cores it carries the interrupt number.
    External(Option<usize>),
    /// Any other interrupt: a kernel fault.
    UnexpectedInterrupt,
    /// Any other exception: a kernel fault.
    UnexpectedException,
}

pub open spec fn spec_classify(cause: u32, family: Family) -> TrapCause {
    if cause == ENVIRONMENT_CALL_FROM_U_MODE {
        TrapCause::Syscall
    } else if family == Family::Generic {
        if cause == MACHINE_SOFTWARE_INTERRUPT {
            TrapCause::Reschedule
        } else if cause == MACHINE_TIMER_INTERRUPT {
            TrapCause::Timer
        } else if cause == MACHINE_EXTERNAL_INTERRUPT {
            TrapCause::External(None)
        } else if spec_is_interrupt(cause) {
            TrapCause::UnexpectedInterrupt
        } else {
            TrapCause::UnexpectedException
        }
    } else {
        if cause == WCH_MACHINE_SOFTWARE_INTERRUPT {
            TrapCause::Reschedule
        } else if cause == WCH_MACHINE_TIMER_INTERRUPT {
            TrapCause::Timer
        } else if cause >= WCH_EXTERNAL_INTERRUPT_BASE {
            TrapCause::External(Some((cause - INTERRUPT_BIT) as usize))
        } else if spec_is_interrupt(cause) {
            TrapCause::UnexpectedInterrupt
        } else {
            TrapCause::UnexpectedException
        }
    }
}

/// Classifies a trap cause.
pub fn classify(cause: u32, family: Family) -> (r: TrapCause)
    ensures
        r == spec_classify(cause, family),
{
    if cause == ENVIRONMENT_CALL_FROM_U_MODE {
        return TrapCause::Syscall;
    }
    match family {
        Family::Generic => {
            if cause == MACHINE_SOFTWARE_INTERRUPT {
                TrapCause::Reschedule
            } else if cause == MACHINE_TIMER_INTERRUPT {
                TrapCause::Timer
            } else if cause == MACHINE_EXTERNAL_INTERRUPT {
                TrapCause::External(None)
            } else if is_interrupt(cause) {
                TrapCause::UnexpectedInterrupt
            } else {
                TrapCause::UnexpectedException
            }
        },
        Family::WchV4c => {
            if cause == WCH_MACHINE_SOFTWARE_INTERRUPT {
                TrapCause::Reschedule
            } else if cause == WCH_MACHINE_TIMER_INTERRUPT {
                TrapCause::Timer
            } else if cause >= WCH_EXTERNAL_INTERRUPT_BASE {
                TrapCause::External(Some((cause - INTERRUPT_BIT) as usize))
            } else if is_interrupt(cause) {
                TrapCause::UnexpectedInterrupt
            } else {
                TrapCause::UnexpectedException
            }
        },
    }
}

/// A task may be switched to after an exception or the reschedule
/// interrupt; other interrupts may have been taken inside the kernel's own
/// trap handling and must leave the switch for later.
pub open spec fn spec_can_switch(cause: TrapCause) -> bool {
    match cause {
        TrapCause::Syscall => true,
        TrapCause::Reschedule => true,
        TrapCause::UnexpectedException => true,
        _ => false,
    }
}

/// Whether a trap of this kind may switch tasks.
pub fn can_switch(cause: TrapCause) -> (r: bool)
    ensures
        r == spec_can_switch(cause),
{
    match cause {
        TrapCause::Syscall => true,
        TrapCause::Reschedule => true,
        TrapCause::UnexpectedException => true,
        _ => false,
    }
}

/// How much of the register set the trap exit restores.
#[derive(Clone, Copy, Debug, PartialEq, Eq, Structural)]
pub enum RestoreContext {
    /// Only the registers saved on every trap.
    Partial,
    /// Every register: another task runs, or a system call returned values.
    Full,
}

/// The result of a trap: the task to run, how to restore it, and whether to
/// raise the reschedule interrupt for a switch that had to wait.
#[derive(Clone, Copy, Debug, PartialEq, Eq, Structural)]
pub struct TrapOutcome {
    pub next: TaskId,
    pub restore: RestoreContext,
    pub reschedule_later: bool,
}

/// The exit decision for a trap taken while `current` ran, whose handler
/// asked for `schedule`; `None` when the kernel has no task to run (a
/// kernel fault).
pub open spec fn resolved(
    table: TaskTable,
    current: TaskId,
    schedule: Schedule,
    can_switch: bool,
    syscall: bool,
    r: Option<TrapOutcome>,
) -> bool {
    let ready = |id: TaskId| table.spec_task(id@ as int).state == TaskState::Ready;
    match schedule {
        Schedule::Same => r == if ready(current) {
            Some(
                TrapOutcome {
                    next: current,
                    restore: if syscall {
                        RestoreContext::Full
                    } else {
                        RestoreContext::Partial
                    },
                    reschedule_later: false,
                },
            )
        } else {
            None
        },
        _ => if !can_switch {
            r == if ready(current) {
                Some(TrapOutcome { next: current, restore: RestoreContext::Partial, reschedule_later: true })
            } else {
                None
            }
        } else {
            match schedule {
                Schedule::Exactly(n) => r == if n != current && ready(n) {
                    Some(TrapOutcome { next: n, restore: RestoreContext::Full, reschedule_later: false })
                } else {
                    None
                },
                _ => match r {
                    Some(o) => {
                        &&& o.restore == if o.next != current || syscall {
                            RestoreContext::Full
                        } else {
                            RestoreContext::Partial
                        }
                        &&& !o.reschedule_later
                        &&& first_in_priority(table, o.next@ as int, TaskState::Ready)
                    },
                    None => !any_in_state(table, TaskState::Ready),
                },
            }
        },
    }
}

/// Decides how a trap exits once its handler has asked for `schedule`.
pub fn resolve_schedule(
    table: &TaskTable,
    current: TaskId,
    schedule: Schedule,
    can_switch: bool,
    syscall: bool,
) -> (r: Option<TrapOutcome>)
    requires
        table.wf(),
    ensures
        resolved(*table, current, schedule, can_switch, syscall, r),
{
    let current_ready = table.get(current).state() == TaskState::Ready;
    match schedule {
        Schedule::Same => {
            if !current_ready {
                return None;
            }
            let restore = if syscall {
                RestoreContext::Full
            } else {
                RestoreContext::Partial
            };
            Some(TrapOutcome { next: current, restore, reschedule_later: false })
        },
        Schedule::Exactly(next) => {
            if !can_switch {
                if !current_ready {
                    return None;
                }
                return Some(TrapOutcome { next: current, restore: RestoreContext::Partial, reschedule_later: true });
            }
            if next == current || table.get(next).state() != TaskState::Ready {
                return None;
            }
            Some(TrapOutcome { next, restore: RestoreContext::Full, reschedule_later: false })
        },
        Schedule::Other => {
            if !can_switch {
                if !current_ready {
                    return None;
                }
                return Some(TrapOutcome { next: current, restore: RestoreContext::Partial, reschedule_later: true });
            }
            match find_preferred_task(table) {
                Some(next) => {
                    let restore = if next != current || syscall {
                        RestoreContext::Full
                    } else {
                        RestoreContext::Partial
                    };
                    Some(TrapOutcome { next, restore, reschedule_later: false })
                },
                None => None,
            }
        },
    }
}

/// The claimed interrupts were delivered in order: `ts` holds the table
/// before each delivery and after the last one, `ss` what each delivery
/// asked for.
pub open spec fn claims_delivered(
    before: TaskTable,
    after: TaskTable,
    caller: TaskId,
    claimed: Seq<usize>,
    ts: Seq<TaskTable>,
    ss: Seq<Schedule>,
) -> bool {
    &&& ts.len() == claimed.len() + 1
    &&& ss.len() == claimed.len()
    &&& ts[0] == before
    &&& ts[claimed.len() as int] == after
    &&& forall|i: int| 0 <= i < claimed.len() ==> #[trigger] delivered_at(caller, claimed, ts, ss, i)
}

/// Delivery number `i` of `claimed` took `ts[i]` to `ts[i + 1]`.
pub open spec fn delivered_at(caller: TaskId, claimed: Seq<usize>, ts: Seq<TaskTable>, ss: Seq<Schedule>, i: int) -> bool {
    &&& ts[i].spec_interrupts().spec_lookup(claimed[i] as int) is Some
    &&& interrupt_done(ts[i], ts[i + 1], caller, claimed[i], ss[i])
}

/// Some delivery asked for a switch.
pub open spec fn any_switch(ss: Seq<Schedule>) -> bool {
    exists|i: int| 0 <= i < ss.len() && #[trigger] ss[i] != Schedule::Same
}

/// Some claimed interrupt has no owner.
pub open spec fn any_unowned(table: TaskTable, claimed: Seq<usize>) -> bool {
    exists|i: int| 0 <= i < claimed.len() && #[trigger] table.spec_interrupts().spec_lookup(claimed[i] as int) is None
}

/// What the delivery of the interrupts claimed from a standard interrupt
/// controller does: each is posted to its owner, in claim order, and a
/// switch is wanted if any delivery asked for one. `None` (a kernel fault)
/// when a claimed interrupt has no owner.
pub open spec fn claims_done(before: TaskTable, after: TaskTable, caller: TaskId, claimed: Seq<usize>, r: Option<Schedule>) -> bool {
    &&& after.spec_interrupts() == before.spec_interrupts()
    &&& (r is None <==> any_unowned(before, claimed))
    &&& r is Some ==> exists|ts: Seq<TaskTable>, ss: Seq<Schedule>|
        #[trigger] claims_delivered(before, after, caller, claimed, ts, ss) && r == Some(
            if any_switch(ss) {
                Schedule::Other
            } else {
                Schedule::Same
            },
        )
}

/// Runs the handlers of the external interrupts claimed in one trap, in
/// order: a switch is wanted if any delivery asked for one. `None` when an
/// interrupt has no owner (a kernel fault).
pub fn handle_claimed_interrupts(table: &mut TaskTable, caller_idx: TaskId, claimed: &Vec<usize>) -> (r: Option<Schedule>)
    requires
        old(table).wf(),
    ensures
        final(table).wf(),
        claims_done(*old(table), *final(table), caller_idx, claimed@, r),
{
    let mut reschedule = false;
    let mut i: usize = 0;
    let ghost mut ts: Seq<TaskTable> = seq![*table];
    let ghost mut ss: Seq<Schedule> = seq![];
    while i < claimed.len()
        invariant
            table.wf(),
            i <= claimed@.len(),
            table.spec_interrupts() == old(table).spec_interrupts(),
            forall|j: int| 0 <= j < i ==> #[trigger] old(table).spec_interrupts().spec_lookup(claimed@[j] as int) is Some,
            ts.len() == i + 1,
            ss.len() == i,
            ts[0] == *old(table),
            ts[i as int] == *table,
            forall|j: int|
                0 <= j < i ==> #[trigger] delivered_at(caller_idx, claimed@, ts, ss, j),
            reschedule == any_switch(ss),
        decreases claimed@.len() - i,
    {
        let interrupt = claimed[i];
        if table.interrupts().get_interrupt_descriptor(interrupt).is_none() {
            proof {
                assert(any_unowned(*old(table), claimed@));
            }
            return None;
        }
        let ghost before = *table;
        let s = handle_interrupt(table, caller_idx, interrupt);
        if s != Schedule::Same {
            reschedule = true;
        }
        proof {
            let ss0 = ss;
            let ts0 = ts;
            ts = ts.push(*table);
            ss = ss.push(s);
            assert(ts[i as int] == before);
            assert(before.spec_interrupts().spec_lookup(interrupt as int) is Some);
            assert forall|j: int|
                0 <= j < i + 1 implies #[trigger] delivered_at(caller_idx, claimed@, ts, ss, j) by {
                if j < i {
                    assert(ss[j] == ss0[j]);
                    assert(ts[j] == ts0[j]);
                    assert(ts[j + 1] == ts0[j + 1]);
                    assert(delivered_at(caller_idx, claimed@, ts0, ss0, j));
                } else {
                    assert(ts[j + 1] == *table);
                    assert(ss[j] == s);
                }
            }
            if any_switch(ss0) {
                let k = choose|k: int| 0 <= k < ss0.len() && #[trigger] ss0[k] != Schedule::Same;
                assert(ss[k] == ss0[k]);
            }
            if s != Schedule::Same {
                assert(ss[i as int] != Schedule::Same);
            }
            if any_switch(ss) {
                let k = choose|k: int| 0 <= k < ss.len() && #[trigger] ss[k] != Schedule::Same;
                if k < i {
                    assert(ss0[k] == ss[k]);
                }
            }
        }
        i = i + 1;
    }
    proof {
        assert(claims_delivered(*old(table), *table, caller_idx, claimed@, ts, ss));
        assert(!any_unowned(*old(table), claimed@));
    }
    if reschedule {
        Some(Schedule::Other)
    } else {
        Some(Schedule::Same)
    }
}

/// What the handler of a trap of kind `cause`, taken while `current` ran,
/// does to the table, and what it asks for (`None`: a kernel fault).
pub open spec fn handler_done(
    before: TaskTable,
    after: TaskTable,
    current: TaskId,
    cause: TrapCause,
    now_ticks: u64,
    claimed: Seq<usize>,
    r: Option<Schedule>,
) -> bool {
    match cause {
        TrapCause::Syscall => r is Some && exists|mid: TaskTable|
            pc_advanced(before, mid, current) && #[trigger] dispatched(
                mid,
                after,
                current,
                now_ticks,
                r->Some_0,
            ),
        TrapCause::Reschedule => r == Some(Schedule::Other) && after == before,
        TrapCause::Timer => r is Some && exists|mid: TaskTable|
            mid.spec_deadline() == NO_DEADLINE && #[trigger] timers_done(
                mid,
                after,
                current,
                now_ticks,
                r->Some_0,
            ) && forall|k: int| 0 <= k < NUM_TASKS ==> #[trigger] mid.spec_task(k) == before.spec_task(k),
        TrapCause::External(Some(interrupt)) => match before.spec_interrupts().spec_lookup(interrupt as int) {
            Some(_) => r is Some && exists|mid: TaskTable|
                interrupt_disabled(before, mid, interrupt) && #[trigger] interrupt_done(
                    mid,
                    after,
                    current,
                    interrupt,
                    r->Some_0,
                ),
            None => r is None,
        },
        TrapCause::External(None) => claims_done(before, after, current, claimed, r),
        _ => r is None,
    }
}

/// Runs the handler for a trap taken while `current` ran, at tick
/// `now_ticks`. `claimed` lists the external interrupts claimed from the
/// interrupt controller (standard cores). `None` on a kernel fault.
pub fn run_handler(
    table: &mut TaskTable,
    current: TaskId,
    cause: TrapCause,
    now_ticks: u64,
    claimed: &Vec<usize>,
) -> (r: Option<Schedule>)
    requires
        old(table).wf(),
        old(table).spec_task(current@ as int).state == TaskState::Ready,
    ensures
        final(table).wf(),
        handler_done(*old(table), *final(table), current, cause, now_ticks, claimed@, r),
{
    match cause {
        TrapCause::Syscall => {
            let ghost before = *table;
            let s = handle_syscall(table, current, now_ticks);
            proof {
                let mid = choose|mid: TaskTable|
                    pc_advanced(before, mid, current) && #[trigger] dispatched(mid, *table, current, now_ticks, s);
                let r = Some(s);
                assert(r->Some_0 == s);
                assert(pc_advanced(before, mid, current) && dispatched(mid, *table, current, now_ticks, r->Some_0));
            }
            Some(s)
        },
        TrapCause::Reschedule => Some(Schedule::Other),
        TrapCause::Timer => {
            table.clear_timer_deadline();
            let ghost mid = *table;
            let s = handle_timer_expiration(table, current, now_ticks);
            proof {
                let r = Some(s);
                assert(r->Some_0 == s);
                assert(timers_done(mid, *table, current, now_ticks, r->Some_0));
            }
            Some(s)
        },
        TrapCause::External(Some(interrupt)) => {
            let owned = table.interrupts().get_interrupt_descriptor(interrupt).is_some();
            table.disable_interrupt(interrupt);
            if !owned {
                return None;
            }
            let ghost mid = *table;
            proof {
                assert(mid.spec_interrupts().spec_descriptors() == old(table).spec_interrupts().spec_descriptors());
            }
            let s = handle_interrupt(table, current, interrupt);
            proof {
                let r = Some(s);
                assert(r->Some_0 == s);
                assert(interrupt_disabled(*old(table), mid, interrupt) && interrupt_done(mid, *table, current, interrupt, r->Some_0));
            }
            Some(s)
        },
        TrapCause::External(None) => handle_claimed_interrupts(table, current, claimed),
        _ => None,
    }
}

/// Handles a hardware trap with cause register `cause`, taken while
/// `current` ran: classifies it, runs its handler, and decides what runs
/// next and how it is restored. `None` on a kernel fault.
pub fn handle_trap(
    table: &mut TaskTable,
    current: TaskId,
    cause: u32,
    family: Family,
    now_ticks: u64,
    claimed: &Vec<usize>,
) -> (r: Option<TrapOutcome>)
    requires
        old(table).wf(),
        old(table).spec_task(current@ as int).state == TaskState::Ready,
    ensures
        final(table).wf(),
        r is Some ==> final(table).spec_task(r->Some_0.next@ as int).state == TaskState::Ready,
        exists|mid: TaskTable, s: Option<Schedule>|
            #[trigger] handler_done(*old(table), mid, current, spec_classify(cause, family), now_ticks, claimed@, s)
                && match s {
                None => r is None && mid == *final(table),
                Some(schedule) => resolved(
                    mid,
                    current,
                    schedule,
                    spec_can_switch(spec_classify(cause, family)),
                    spec_classify(cause, family) == TrapCause::Syscall,
                    r,
                ) && mid == *final(table),
            },
{
    let trap = classify(cause, family);
    let switch_allowed = can_switch(trap);
    let handled = run_handler(table, current, trap, now_ticks, claimed);
    let ghost mid = *table;
    let schedule = match handled {
        Some(s) => s,
        None => {
            proof {
                assert(handler_done(*old(table), mid, current, trap, now_ticks, claimed@, handled));
            }
            return None;
        },
    };
    let syscall = trap == TrapCause::Syscall;
    let r = resolve_schedule(table, current, schedule, switch_allowed, syscall);
    proof {
        assert(handler_done(*old(table), mid, current, trap, now_ticks, claimed@, handled));
    }
    r
}

} // verus!

verus! {

/// The memory protection registers to load for a task.
#[derive(Clone, Copy)]
pub struct MemoryProtection {
    pub pmp_cfg: u32,
    pub pmp_addr: [u32; NUM_PMP_ENTRIES],
}

/// The memory protection a task runs under, from its static description.
pub fn apply_memory_protection(task: &Task) -> (r: MemoryProtection)
    ensures
        r.pmp_cfg == task@.descriptor.arch.pmp_cfg,
        r.pmp_addr == task@.descriptor.arch.pmp_addr,
{
    let arch = task.descriptor().arch;
    MemoryProtection { pmp_cfg: arch.pmp_cfg, pmp_addr: arch.pmp_addr }
}

} // verus!
