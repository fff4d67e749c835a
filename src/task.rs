//! Task control blocks, their state machine, and the operations of the
//! kernel on the task table: scheduling, IPC, priority inheritance, timers
//! and interrupt delivery.
use vstd::prelude::*;
use crate::abi::{MAX_MESSAGE_SIZE, NO_SENDER, SYS_NOTIFICATION_TIMER};
use crate::context::SavedContext;
use crate::descriptor::{ArchTaskDescriptor, TaskDescriptor, Flags, InterruptDescriptor, NUM_PMP_ENTRIES, UNOWNED};
use crate::interrupt::InterruptTable;
use crate::syscall::{
    call_in_len, call_out_capacity, message_len, payload_copied, received_len,
    received_notifications, received_sender, receive_out_capacity, reply_len, send_in_len,
    set_call_result, set_receive_result,
};
use crate::time::{
    spec_merged_deadline, spec_us_to_ticks, update_deadline, us_to_ticks, Clock, NO_DEADLINE,
};

verus! {

/// Number of tasks in the system.
pub const NUM_TASKS: usize = 16;

/// A task number, always below NUM_TASKS.
#[derive(Clone, Copy, Debug, PartialEq, Eq, Structural)]
pub struct TaskId(usize);

impl View for TaskId {
    type V = nat;

    closed spec fn view(&self) -> nat {
        self.0 as nat
    }
}

impl TaskId {
    #[verifier::type_invariant]
    closed spec fn inv(self) -> bool {
        self.0 < NUM_TASKS
    }

    /// The id of task `id`, or `None` when there is no such task.
    pub fn new(id: u8) -> (r: Option<TaskId>)
        ensures
            r is Some <==> (id as nat) < NUM_TASKS,
            r is Some ==> r->Some_0@ == id as nat,
    {
        if (id as usize) < NUM_TASKS {
            Some(TaskId(id as usize))
        } else {
            None
        }
    }

    /// The task number as a byte, as it appears in the register interface.
    pub fn as_u8(self) -> (r: u8)
        ensures
            r as nat == self@,
    {
        proof {
            use_type_invariant(self);
        }
        self.0 as u8
    }

    /// The task number as a table index.
    pub fn as_usize(self) -> (r: usize)
        ensures
            r as nat == self@,
            r < NUM_TASKS,
    {
        proof {
            use_type_invariant(self);
        }
        self.0
    }

    proof fn lemma_view_injective(a: TaskId, b: TaskId)
        ensures
            a@ == b@ <==> a == b,
    {
    }
}

/// The scheduling state of a task.
#[derive(Clone, Copy, Debug, PartialEq, Eq, Structural)]
pub enum TaskState {
    /// Stopped by a fault; only a reset brings it back.
    Fatal,
    /// Runnable.
    Ready,
    /// Waiting for the target of its call to receive the message.
    CallRequest(TaskId),
    /// Waiting for the target of its call to reply.
    CallResponse(TaskId),
    /// Waiting for a call or a notification.
    Receive,
}

/// The transitions of the task state machine.
pub open spec fn legal_transition(from: TaskState, to: TaskState) -> bool {
    match (from, to) {
        (_, TaskState::Fatal) => true,
        (TaskState::Ready, TaskState::CallRequest(_)) => true,
        (TaskState::CallRequest(a), TaskState::CallResponse(b)) => a == b,
        (TaskState::CallResponse(_), TaskState::Ready) => true,
        (TaskState::Ready, TaskState::Receive) => true,
        (TaskState::Receive, TaskState::Ready) => true,
        _ => false,
    }
}

/// What should run after a kernel operation.
#[derive(Clone, Copy, Debug, PartialEq, Eq, Structural)]
pub enum Schedule {
    /// Resume the task that was running.
    Same,
    /// Pick the most urgent ready task.
    Other,
    /// Switch to the given task.
    Exactly(TaskId),
}

/// Operations a task may apply to an interrupt it owns.
#[derive(Clone, Copy, Debug, PartialEq, Eq, Structural)]
pub enum InterruptControl {
    Disable,
    Enable,
    Complete,
}

/// An interrupt control code outside the register interface.
#[derive(Clone, Copy, Debug, PartialEq, Eq, Structural)]
pub struct InvalidInterruptControl;

impl InterruptControl {
    pub open spec fn spec_from_raw(raw: u32) -> Result<InterruptControl, InvalidInterruptControl> {
        if raw == 0 {
            Ok(InterruptControl::Disable)
        } else if raw == 1 {
            Ok(InterruptControl::Enable)
        } else if raw == 2 {
            Ok(InterruptControl::Complete)
        } else {
            Err(InvalidInterruptControl)
        }
    }

    /// Decodes a raw interrupt control code.
    pub fn from_raw(raw: u32) -> (r: Result<InterruptControl, InvalidInterruptControl>)
        ensures
            r == Self::spec_from_raw(raw),
    {
        match raw {
            0 => Ok(InterruptControl::Disable),
            1 => Ok(InterruptControl::Enable),
            2 => Ok(InterruptControl::Complete),
            _ => Err(InvalidInterruptControl),
        }
    }
}

/// The control block of a task.
pub struct Task {
    context: SavedContext,
    index: u8,
    state: TaskState,
    current_priority: u8,
    notifications: u32,
    timer_deadline: u64,
    timer_period: Option<u64>,
    descriptor: TaskDescriptor,
}

/// The contents of a task control block.
pub struct TaskView {
    pub context: SavedContext,
    pub index: u8,
    pub state: TaskState,
    /// Priority including any boost inherited from callers; lower is more
    /// urgent.
    pub current_priority: u8,
    /// Pending notification bits.
    pub notifications: u32,
    /// Absolute tick at which the timer expires; NO_DEADLINE when disabled.
    pub timer_deadline: u64,
    /// The period, in ticks, of a periodic timer.
    pub timer_period: Option<u64>,
    pub descriptor: TaskDescriptor,
}

impl View for Task {
    type V = TaskView;

    closed spec fn view(&self) -> TaskView {
        TaskView {
            context: self.context,
            index: self.index,
            state: self.state,
            current_priority: self.current_priority,
            notifications: self.notifications,
            timer_deadline: self.timer_deadline,
            timer_period: self.timer_period,
            descriptor: self.descriptor,
        }
    }
}

/// `after` is `before` woken from a receive: the pending notifications are
/// handed over in the registers (and cleared), together with the sender and
/// the message, if any. State and priority are not constrained.
pub open spec fn receive_result(
    before: TaskView,
    after: TaskView,
    sender: Option<(u8, SavedContext)>,
) -> bool {
    &&& after.notifications == 0
    &&& received_notifications(after.context) == before.notifications
    &&& after.index == before.index
    &&& after.timer_deadline == before.timer_deadline
    &&& after.timer_period == before.timer_period
    &&& after.descriptor == before.descriptor
    &&& match sender {
        Some((id, src)) => {
            let len = message_len(receive_out_capacity(before.context), call_in_len(src));
            &&& received_sender(after.context) == id
            &&& received_len(after.context) == len
            &&& payload_copied(before.context, after.context, src, len as int, 2)
        },
        None => {
            &&& received_sender(after.context) == NO_SENDER
            &&& received_len(after.context) == 0
            &&& payload_copied(before.context, after.context, before.context, 0, 2)
        },
    }
}

/// `after` is `before` with the reply of a call delivered into its registers.
/// State and priority are not constrained.
pub open spec fn reply_result(before: TaskView, after: TaskView, src: SavedContext) -> bool {
    let len = message_len(call_out_capacity(before.context), send_in_len(src));
    &&& reply_len(after.context) == len
    &&& payload_copied(before.context, after.context, src, len as int, 1)
    &&& after.notifications == before.notifications
    &&& after.index == before.index
    &&& after.timer_deadline == before.timer_deadline
    &&& after.timer_period == before.timer_period
    &&& after.descriptor == before.descriptor
}

/// The effect of posting `bits` to a task: the bits accumulate, and a task
/// waiting in Receive wakes with no sender.
pub open spec fn posted(before: TaskView, after: TaskView, bits: u32, woke: bool) -> bool {
    let pending = before.notifications | bits;
    &&& woke == (pending != 0 && before.state == TaskState::Receive)
    &&& woke ==> {
        &&& after.state == TaskState::Ready
        &&& after.current_priority == before.current_priority
        &&& receive_result(TaskView { notifications: pending, ..before }, after, None)
    }
    &&& !woke ==> after == TaskView { notifications: pending, ..before }
}

impl Task {
    /// A control block with everything zero, in the Fatal state.
    pub fn zeroed_at(descriptor: TaskDescriptor) -> (r: Task)
        ensures
            r@.index == 0,
            r@.state == TaskState::Fatal,
            r@.current_priority == 0,
            r@.notifications == 0,
            r@.timer_deadline == 0,
            r@.timer_period is None,
            r@.descriptor == descriptor,
    {
        Task {
            context: SavedContext::zeroed(),
            index: 0,
            state: TaskState::Fatal,
            current_priority: 0,
            notifications: 0,
            timer_deadline: 0,
            timer_period: None,
            descriptor,
        }
    }

    /// The id of the task.
    pub fn index(&self) -> (r: TaskId)
        requires
            (self@.index as nat) < NUM_TASKS,
        ensures
            r@ == self@.index as nat,
    {
        TaskId(self.index as usize)
    }

    /// The task number as a byte.
    pub fn index_byte(&self) -> (r: u8)
        ensures
            r == self@.index,
    {
        self.index
    }

    /// The saved registers.
    pub fn context(&self) -> (r: &SavedContext)
        ensures
            *r == self@.context,
    {
        &self.context
    }

    /// The saved registers, for writing.
    pub fn context_mut(&mut self) -> (r: &mut SavedContext)
        ensures
            *r == old(self)@.context,
            final(self)@ == (TaskView { context: *final(r), ..old(self)@ }),
    {
        &mut self.context
    }

    /// The static description of the task.
    pub fn descriptor(&self) -> (r: &TaskDescriptor)
        ensures
            *r == self@.descriptor,
    {
        &self.descriptor
    }

    /// The scheduling state.
    pub fn state(&self) -> (r: TaskState)
        ensures
            r == self@.state,
    {
        self.state
    }

    /// The priority, including any inherited boost.
    pub fn current_priority(&self) -> (r: u8)
        ensures
            r == self@.current_priority,
    {
        self.current_priority
    }

    /// Absolute tick of the next timer expiry (NO_DEADLINE when disabled).
    pub fn timer_deadline(&self) -> (r: u64)
        ensures
            r == self@.timer_deadline,
    {
        self.timer_deadline
    }

    /// The period of a periodic timer, in ticks.
    pub fn timer_period(&self) -> (r: Option<u64>)
        ensures
            r == self@.timer_period,
    {
        self.timer_period
    }

    /// Moves to `new_state`; only the transitions of the state machine are
    /// allowed.
    fn set_state(&mut self, new_state: TaskState)
        requires
            legal_transition(old(self)@.state, new_state),
        ensures
            final(self)@ == (TaskView { state: new_state, ..old(self)@ }),
    {
        self.state = new_state;
    }

    /// Restarts the task from its entry point: Ready, at its base priority,
    /// with its timer disabled. Legal from any state, Fatal included. The
    /// reset of a task in the table, which also resets its interrupts, is
    /// `TaskTable::reset_task`.
    pub(crate) fn reset(&mut self)
        ensures
            final(self)@ == (TaskView {
                state: TaskState::Ready,
                current_priority: old(self)@.descriptor.priority,
                context: SavedContext { pc: old(self)@.descriptor.init_pc, ..old(self)@.context },
                timer_deadline: NO_DEADLINE,
                timer_period: None,
                ..old(self)@
            }),
    {
        self.state = TaskState::Ready;
        self.current_priority = self.descriptor.priority;
        let init_pc = self.descriptor.init_pc;
        self.context.task_reset(init_pc);
        self.disable_timer();
    }

    /// Pending notification bits.
    pub fn notifications(&self) -> (r: u32)
        ensures
            r == self@.notifications,
    {
        self.notifications
    }

    /// Clears the pending notifications.
    pub fn reset_notifications(&mut self)
        ensures
            final(self)@ == (TaskView { notifications: 0, ..old(self)@ }),
    {
        self.notifications = 0;
    }

    fn disable_timer(&mut self)
        ensures
            final(self)@ == (TaskView { timer_deadline: NO_DEADLINE, timer_period: None, ..old(self)@ }),
    {
        self.timer_period = None;
        self.timer_deadline = NO_DEADLINE;
    }

    /// Arms, or with a zero `deadline` disables, the task's timer at tick
    /// `now_ticks`. `deadline` is in microseconds; a periodic timer uses it as
    /// its period, which must come to at least one tick. The shared hardware
    /// deadline is pulled in when the new deadline is sooner.
    pub fn set_timer(&mut self, periodic: bool, deadline: u32, now_ticks: u64, clock: Clock, programmed: &mut u64)
        requires
            periodic && deadline != 0 ==> spec_us_to_ticks(deadline, clock.tick_frequency) > 0,
        ensures
            ({
                let ticks = spec_us_to_ticks(deadline, clock.tick_frequency);
                if deadline == 0 {
                    &&& final(self)@ == (TaskView { timer_deadline: NO_DEADLINE, timer_period: None, ..old(self)@ })
                    &&& *final(programmed) == *old(programmed)
                } else {
                    let d = now_ticks.wrapping_add(ticks);
                    &&& final(self)@ == (TaskView {
                        timer_deadline: d,
                        timer_period: if periodic { Some(ticks) } else { None },
                        ..old(self)@
                    })
                    &&& *final(programmed) == spec_merged_deadline(*old(programmed), d)
                }
            }),
    {
        if deadline == 0 {
            self.disable_timer();
        } else {
            let ticks = us_to_ticks(deadline, clock);
            if periodic {
                self.timer_period = Some(ticks);
            } else {
                self.timer_period = None;
            }
            self.timer_deadline = now_ticks.wrapping_add(ticks);
            update_deadline(programmed, self.timer_deadline);
        }
    }

    /// Checks the timer against `now_ticks`. An expired periodic timer is
    /// re-armed one period after `now_ticks`, an expired one-shot timer is
    /// disabled, and the task is posted the timer notification. Returns
    /// whether the task was woken.
    pub fn evaluate_timer(&mut self, now_ticks: u64, programmed: &mut u64) -> (r: bool)
        ensures
            now_ticks < old(self)@.timer_deadline ==> {
                &&& !r
                &&& final(self)@ == old(self)@
                &&& *final(programmed) == *old(programmed)
            },
            now_ticks >= old(self)@.timer_deadline ==> {
                let rearmed = match old(self)@.timer_period {
                    Some(p) => now_ticks.wrapping_add(p),
                    None => NO_DEADLINE,
                };
                &&& posted(
                    TaskView { timer_deadline: rearmed, ..old(self)@ },
                    final(self)@,
                    SYS_NOTIFICATION_TIMER,
                    r,
                )
                &&& *final(programmed) == match old(self)@.timer_period {
                    Some(p) => spec_merged_deadline(*old(programmed), rearmed),
                    None => *old(programmed),
                }
            },
    {
        if now_ticks < self.timer_deadline {
            return false;
        }
        match self.timer_period {
            Some(period_ticks) => {
                self.timer_deadline = now_ticks.wrapping_add(period_ticks);
                update_deadline(programmed, self.timer_deadline);
            },
            None => {
                self.timer_deadline = NO_DEADLINE;
            },
        }
        self.post(SYS_NOTIFICATION_TIMER)
    }

    /// ORs `notification` into the pending bits; a task waiting in Receive
    /// with bits pending is woken with no sender. Returns whether it woke.
    pub fn post(&mut self, notification: u32) -> (r: bool)
        ensures
            posted(old(self)@, final(self)@, notification, r),
    {
        self.notifications = self.notifications | notification;
        if self.notifications != 0 && self.state == TaskState::Receive {
            set_receive_result(self, None);
            self.set_state(TaskState::Ready);
            return true;
        }
        false
    }
}

} // verus!

verus! {

/// The table of all tasks, with the interrupt routing, the clock and the
/// deadline programmed into the shared hardware timer.
pub struct TaskTable {
    tasks: Vec<Task>,
    configured: usize,
    interrupts: InterruptTable,
    clock: Clock,
    deadline: u64,
}

/// Well-formedness of the control block in slot `i`.
pub open spec fn task_wf(t: TaskView, i: int) -> bool {
    &&& t.index as int == i
    &&& t.current_priority <= t.descriptor.priority
    &&& match t.state {
        TaskState::CallRequest(target) => {
            &&& target@ != i
            &&& target@ < NUM_TASKS
            &&& call_in_len(t.context) <= MAX_MESSAGE_SIZE
        },
        TaskState::CallResponse(target) => target@ != i && target@ < NUM_TASKS,
        _ => true,
    }
    &&& t.timer_period is Some ==> t.timer_period->Some_0 > 0
}

impl TaskTable {
    /// The control block of task `i`.
    pub closed spec fn spec_task(&self, i: int) -> TaskView {
        self.tasks@[i]@
    }

    /// Number of tasks the configuration describes; the slots above them
    /// stay unused.
    pub closed spec fn spec_configured(&self) -> nat {
        self.configured as nat
    }

    /// Number of control blocks held.
    pub closed spec fn spec_len(&self) -> nat {
        self.tasks@.len()
    }

    pub closed spec fn spec_interrupts(&self) -> InterruptTable {
        self.interrupts
    }

    pub closed spec fn spec_clock(&self) -> Clock {
        self.clock
    }

    /// The deadline programmed into the hardware timer.
    pub closed spec fn spec_deadline(&self) -> u64 {
        self.deadline
    }

    pub closed spec fn wf(&self) -> bool {
        &&& self.tasks@.len() == NUM_TASKS
        &&& 1 <= self.configured <= NUM_TASKS
        &&& self.interrupts.wf()
        &&& forall|i: int| 0 <= i < NUM_TASKS ==> task_wf(#[trigger] self.spec_task(i), i)
        &&& forall|i: int|
            0 <= i < self.interrupts.spec_descriptors().len() ==> {
                let owner = #[trigger] self.interrupts.spec_descriptors()[i].spec_task_id();
                owner == UNOWNED || (owner as nat) < self.configured
            }
    }

    /// In a well-formed table, slot `i` holds task `i`, and no task is less
    /// urgent than its base priority.
    pub proof fn lemma_slots(&self)
        requires
            self.wf(),
        ensures
            forall|i: int|
                0 <= i < NUM_TASKS ==> (#[trigger] self.spec_task(i)).index as int == i
                    && self.spec_task(i).current_priority <= self.spec_task(i).descriptor.priority,
            1 <= self.spec_configured() <= NUM_TASKS,
    {
        assert forall|i: int| 0 <= i < NUM_TASKS implies (#[trigger] self.spec_task(i)).index as int == i
            && self.spec_task(i).current_priority <= self.spec_task(i).descriptor.priority by {
            assert(task_wf(self.spec_task(i), i));
        }
    }

    /// The id of configured task `id`; `None` for a number past the
    /// configured tasks.
    pub fn task_id(&self, id: u8) -> (r: Option<TaskId>)
        requires
            self.wf(),
        ensures
            r is Some <==> (id as nat) < self.spec_configured(),
            r is Some ==> r->Some_0@ == id as nat,
    {
        if (id as usize) < self.configured {
            Some(TaskId(id as usize))
        } else {
            None
        }
    }

    /// Number of configured tasks.
    pub fn configured(&self) -> (r: usize)
        ensures
            r == self.spec_configured(),
    {
        self.configured
    }

    /// The control block of a task.
    pub fn get(&self, id: TaskId) -> (r: &Task)
        requires
            self.wf(),
        ensures
            r@ == self.spec_task(id@ as int),
    {
        &self.tasks[id.as_usize()]
    }

    /// The deadline programmed into the hardware timer.
    pub fn deadline(&self) -> (r: u64)
        ensures
            r == self.spec_deadline(),
    {
        self.deadline
    }

    /// The interrupt routing and enable state.
    pub fn interrupts(&self) -> (r: &InterruptTable)
        ensures
            *r == self.spec_interrupts(),
            self.wf() ==> r.wf(),
    {
        &self.interrupts
    }

    /// Borrows two distinct tasks at once.
    pub fn get_pair_mut(&mut self, first: TaskId, second: TaskId) -> (r: (&mut Task, &mut Task))
        requires
            old(self).wf(),
            first != second,
        ensures
            r.0@ == old(self).spec_task(first@ as int),
            r.1@ == old(self).spec_task(second@ as int),
            final(self).spec_len() == NUM_TASKS,
            final(self).spec_task(first@ as int) == final(r.0)@,
            final(self).spec_task(second@ as int) == final(r.1)@,
            forall|k: int|
                0 <= k < NUM_TASKS && k != first@ && k != second@ ==> #[trigger] final(self).spec_task(k)
                    == old(self).spec_task(k),
            final(self).spec_interrupts() == old(self).spec_interrupts(),
            final(self).spec_clock() == old(self).spec_clock(),
            final(self).spec_deadline() == old(self).spec_deadline(),
            final(self).spec_configured() == old(self).spec_configured(),
    {
        let f = first.as_usize();
        let s = second.as_usize();
        proof {
            TaskId::lemma_view_injective(first, second);
        }
        let slice = self.tasks.as_mut_slice();
        if f < s {
            let (left, right) = slice.split_at_mut(s);
            let (_, middle) = left.split_at_mut(f);
            match (middle.first_mut(), right.first_mut()) {
                (Some(a), Some(b)) => (a, b),
                _ => unreached(),
            }
        } else {
            let (left, right) = slice.split_at_mut(f);
            let (_, middle) = left.split_at_mut(s);
            match (right.first_mut(), middle.first_mut()) {
                (Some(a), Some(b)) => (a, b),
                _ => unreached(),
            }
        }
    }
}

} // verus!

verus! {

/// Task `i` comes before task `j` in a priority scan: more urgent, or as
/// urgent with a lower index.
pub open spec fn ranks_before(a: TaskView, i: int, b: TaskView, j: int) -> bool {
    a.current_priority < b.current_priority || (a.current_priority == b.current_priority && i <= j)
}

/// Task `i` is the first task in `wanted` state that a priority scan meets.
pub open spec fn first_in_priority(table: TaskTable, i: int, wanted: TaskState) -> bool {
    &&& 0 <= i < NUM_TASKS
    &&& table.spec_task(i).state == wanted
    &&& forall|j: int|
        0 <= j < NUM_TASKS && (#[trigger] table.spec_task(j)).state == wanted ==> ranks_before(
            table.spec_task(i),
            i,
            table.spec_task(j),
            j,
        )
}

/// Some task is in `wanted` state.
pub open spec fn any_in_state(table: TaskTable, wanted: TaskState) -> bool {
    exists|j: int| 0 <= j < NUM_TASKS && (#[trigger] table.spec_task(j)).state == wanted
}

/// Every task but `i` and `j` is as it was, and the configuration and the
/// hardware deadline are untouched.
pub open spec fn unchanged_except(before: TaskTable, after: TaskTable, i: int, j: int) -> bool {
    &&& forall|k: int|
        0 <= k < NUM_TASKS && k != i && k != j ==> #[trigger] after.spec_task(k) == before.spec_task(k)
    &&& after.spec_interrupts() == before.spec_interrupts()
    &&& after.spec_clock() == before.spec_clock()
    &&& after.spec_deadline() == before.spec_deadline()
    &&& after.spec_configured() == before.spec_configured()
}

/// The result of a scheduling comparison after `target` was woken by
/// `caller`: switch only when the target is strictly more urgent.
pub open spec fn wake_schedule(table: TaskTable, caller: TaskId, target: TaskId) -> Schedule {
    if table.spec_task(target@ as int).current_priority < table.spec_task(caller@ as int).current_priority {
        Schedule::Exactly(target)
    } else {
        Schedule::Same
    }
}

impl TaskTable {
    proof fn lemma_wf_update(before: TaskTable, after: TaskTable, i: int, j: int)
        requires
            before.wf(),
            after.tasks@.len() == NUM_TASKS,
            after.interrupts == before.interrupts,
            after.configured == before.configured,
            unchanged_except(before, after, i, j),
            0 <= i < NUM_TASKS ==> task_wf(after.spec_task(i), i),
            0 <= j < NUM_TASKS ==> task_wf(after.spec_task(j), j),
        ensures
            after.wf(),
    {
        assert forall|k: int| 0 <= k < NUM_TASKS implies task_wf(#[trigger] after.spec_task(k), k) by {
            if k != i && k != j {
                assert(after.spec_task(k) == before.spec_task(k));
            }
        }
    }

    /// The control block of a task, for writing.
    fn task_mut(&mut self, id: TaskId) -> (r: &mut Task)
        requires
            old(self).wf(),
        ensures
            id@ < NUM_TASKS,
            r@ == old(self).spec_task(id@ as int),
            final(self).tasks@.len() == NUM_TASKS,
            final(self).spec_task(id@ as int) == final(r)@,
            unchanged_except(*old(self), *final(self), id@ as int, id@ as int),
            final(self).interrupts == old(self).interrupts,
            final(self).configured == old(self).configured,
    {
        let i = id.as_usize();
        &mut self.tasks[i]
    }

    /// Steps the program counter of `id` past its system call instruction.
    pub fn advance_pc(&mut self, id: TaskId)
        requires
            old(self).wf(),
        ensures
            final(self).wf(),
            final(self).spec_task(id@ as int) == (TaskView {
                context: SavedContext {
                    pc: old(self).spec_task(id@ as int).context.pc.wrapping_add(4),
                    ..old(self).spec_task(id@ as int).context
                },
                ..old(self).spec_task(id@ as int)
            }),
            unchanged_except(*old(self), *final(self), id@ as int, id@ as int),
    {
        let ghost before = *self;
        let task = self.task_mut(id);
        task.context_mut().sys_advance_pc();
        proof {
            assert(task_wf(before.spec_task(id@ as int), id@ as int));
            TaskTable::lemma_wf_update(before, *self, id@ as int, id@ as int);
        }
    }
}

/// The first task in `wanted` state in order of priority, ties broken by
/// the lower index.
fn priority_scan(table: &TaskTable, wanted: TaskState) -> (r: Option<TaskId>)
    requires
        table.wf(),
    ensures
        match r {
            Some(id) => first_in_priority(*table, id@ as int, wanted),
            None => !any_in_state(*table, wanted),
        },
{
    let mut best: Option<TaskId> = None;
    let mut i: usize = 0;
    while i < NUM_TASKS
        invariant
            table.wf(),
            i <= NUM_TASKS,
            match best {
                Some(b) => {
                    &&& b@ < i
                    &&& table.spec_task(b@ as int).state == wanted
                    &&& forall|j: int|
                        0 <= j < i && (#[trigger] table.spec_task(j)).state == wanted ==> ranks_before(
                            table.spec_task(b@ as int),
                            b@ as int,
                            table.spec_task(j),
                            j,
                        )
                },
                None => forall|j: int| 0 <= j < i ==> (#[trigger] table.spec_task(j)).state != wanted,
            },
        decreases NUM_TASKS - i,
    {
        let task = &table.tasks[i];
        if task.state == wanted {
            match best {
                None => {
                    best = Some(TaskId(i));
                },
                Some(b) => {
                    if task.current_priority < table.tasks[b.as_usize()].current_priority {
                        best = Some(TaskId(i));
                    }
                },
            }
        }
        i = i + 1;
    }
    best
}

/// The most urgent ready task. There must be one: an idle task is always
/// ready.
pub fn get_preferred_task(table: &TaskTable) -> (r: &Task)
    requires
        table.wf(),
        any_in_state(*table, TaskState::Ready),
    ensures
        first_in_priority(*table, r@.index as int, TaskState::Ready),
        r@ == table.spec_task(r@.index as int),
{
    match priority_scan(table, TaskState::Ready) {
        Some(id) => table.get(id),
        None => unreached(),
    }
}

/// The most urgent ready task, if any.
pub fn find_preferred_task(table: &TaskTable) -> (r: Option<TaskId>)
    requires
        table.wf(),
    ensures
        match r {
            Some(id) => first_in_priority(*table, id@ as int, TaskState::Ready),
            None => !any_in_state(*table, TaskState::Ready),
        },
{
    priority_scan(table, TaskState::Ready)
}

/// A task may only address another task.
fn is_valid_target(caller_idx: TaskId, target_idx: TaskId) -> (r: bool)
    ensures
        r == (caller_idx != target_idx),
{
    if target_idx == caller_idx {
        return false;
    }
    true
}

/// Stops the calling task: it enters the Fatal state and something else
/// must run.
pub fn do_panic(table: &mut TaskTable, caller_idx: TaskId) -> (r: Schedule)
    requires
        old(table).wf(),
    ensures
        final(table).wf(),
        r == Schedule::Other,
        final(table).spec_task(caller_idx@ as int) == (TaskView {
            state: TaskState::Fatal,
            ..old(table).spec_task(caller_idx@ as int)
        }),
        unchanged_except(*old(table), *final(table), caller_idx@ as int, caller_idx@ as int),
{
    let ghost before = *table;
    let caller = table.task_mut(caller_idx);
    caller.set_state(TaskState::Fatal);
    proof {
        assert(task_wf(before.spec_task(caller_idx@ as int), caller_idx@ as int));
        TaskTable::lemma_wf_update(before, *table, caller_idx@ as int, caller_idx@ as int);
    }
    Schedule::Other
}

/// Hands the message of `caller` to `target`, which waits in Receive: the
/// caller now waits for the reply and the target is ready.
fn deliver_call(caller: &mut Task, target: &mut Task)
    requires
        old(caller)@.state is CallRequest,
        old(caller)@.state->CallRequest_0@ == old(target)@.index as nat,
        (old(target)@.index as nat) < NUM_TASKS,
        old(target)@.state == TaskState::Receive,
        call_in_len(old(caller)@.context) <= MAX_MESSAGE_SIZE,
    ensures
        final(caller)@ == (TaskView {
            state: TaskState::CallResponse(old(caller)@.state->CallRequest_0),
            ..old(caller)@
        }),
        final(target)@.state == TaskState::Ready,
        final(target)@.current_priority == old(target)@.current_priority,
        receive_result(old(target)@, final(target)@, Some((old(caller)@.index, old(caller)@.context))),
{
    set_receive_result(target, Some(&*caller));
    let target_idx = target.index();
    caller.set_state(TaskState::CallResponse(target_idx));
    target.set_state(TaskState::Ready);
}

} // verus!

verus! {

/// The priority task `idx` is owed: its base priority, or the priority of a
/// more urgent task among the first `n` that wait in a call on it.
pub open spec fn inherited_priority(table: TaskTable, idx: TaskId, n: int) -> u8
    decreases n,
{
    if n <= 0 {
        table.spec_task(idx@ as int).descriptor.priority
    } else {
        let m = inherited_priority(table, idx, n - 1);
        let t = table.spec_task(n - 1);
        if t.state == TaskState::CallRequest(idx) && t.current_priority < m {
            t.current_priority
        } else {
            m
        }
    }
}

/// Number of tasks among the first `n` whose priority is less urgent than
/// `p`.
pub open spec fn count_above(table: TaskTable, p: u8, n: int) -> nat
    decreases n,
{
    if n <= 0 {
        0
    } else {
        count_above(table, p, n - 1) + if table.spec_task(n - 1).current_priority > p {
            1nat
        } else {
            0nat
        }
    }
}

/// `after` differs from `before` at most in the current priorities.
pub open spec fn only_priorities_changed(before: TaskTable, after: TaskTable) -> bool {
    &&& forall|k: int|
        0 <= k < NUM_TASKS ==> #[trigger] after.spec_task(k) == (TaskView {
            current_priority: after.spec_task(k).current_priority,
            ..before.spec_task(k)
        })
    &&& after.spec_interrupts() == before.spec_interrupts()
    &&& after.spec_clock() == before.spec_clock()
    &&& after.spec_deadline() == before.spec_deadline()
}

proof fn lemma_count_above_lowered(before: TaskTable, after: TaskTable, p: u8, t: int, n: int)
    requires
        0 <= t < NUM_TASKS,
        0 <= n <= NUM_TASKS,
        before.spec_task(t).current_priority > p,
        after.spec_task(t).current_priority == p,
        forall|k: int|
            0 <= k < NUM_TASKS && k != t ==> #[trigger] after.spec_task(k).current_priority
                == before.spec_task(k).current_priority,
    ensures
        t < n ==> count_above(after, p, n) + 1 == count_above(before, p, n),
        t >= n ==> count_above(after, p, n) == count_above(before, p, n),
    decreases n,
{
    if n > 0 {
        lemma_count_above_lowered(before, after, p, t, n - 1);
        if n - 1 != t {
            assert(after.spec_task(n - 1).current_priority == before.spec_task(n - 1).current_priority);
        }
    }
}

proof fn lemma_inherited_at_most_base(table: TaskTable, idx: TaskId, n: int)
    ensures
        inherited_priority(table, idx, n) <= table.spec_task(idx@ as int).descriptor.priority,
    decreases n,
{
    if n > 0 {
        lemma_inherited_at_most_base(table, idx, n - 1);
    }
}

/// Recomputes the priority of `task_idx` as the most urgent of its base
/// priority and the priorities of the tasks still waiting in a call on it,
/// so that a boost lasts exactly as long as it is owed.
fn recalculate_priority(table: &mut TaskTable, task_idx: TaskId) -> (r: u8)
    requires
        old(table).wf(),
    ensures
        final(table).wf(),
        r == inherited_priority(*old(table), task_idx, NUM_TASKS as int),
        final(table).spec_task(task_idx@ as int) == (TaskView {
            current_priority: r,
            ..old(table).spec_task(task_idx@ as int)
        }),
        unchanged_except(*old(table), *final(table), task_idx@ as int, task_idx@ as int),
{
    let mut priority = table.get(task_idx).descriptor().priority;
    let mut i: usize = 0;
    while i < NUM_TASKS
        invariant
            table.wf(),
            i <= NUM_TASKS,
            priority == inherited_priority(*table, task_idx, i as int),
        decreases NUM_TASKS - i,
    {
        let task = &table.tasks[i];
        if task.state == TaskState::CallRequest(task_idx) && task.current_priority < priority {
            priority = task.current_priority;
        }
        i = i + 1;
    }
    let ghost before = *table;
    proof {
        lemma_inherited_at_most_base(before, task_idx, NUM_TASKS as int);
    }
    let task = table.task_mut(task_idx);
    task.current_priority = priority;
    proof {
        assert(task_wf(before.spec_task(task_idx@ as int), task_idx@ as int));
        TaskTable::lemma_wf_update(before, *table, task_idx@ as int, task_idx@ as int);
    }
    priority
}

/// Task `j` lost priority between `before` and `after`, and waits (in
/// `after`) in a call on task `k`.
pub open spec fn lowered_caller_of(before: TaskTable, after: TaskTable, j: int, k: int) -> bool {
    &&& after.spec_task(j).current_priority < before.spec_task(j).current_priority
    &&& after.spec_task(j).state is CallRequest
    &&& after.spec_task(j).state->CallRequest_0@ == k
}

/// Only the call chain lost priority: every task other than `target` that
/// lost priority is waited on by a task that lost priority too.
pub open spec fn lowered_only_on_chain(before: TaskTable, after: TaskTable, target: TaskId) -> bool {
    forall|k: int|
        0 <= k < NUM_TASKS && (#[trigger] after.spec_task(k)).current_priority < before.spec_task(k).current_priority
            && k != target@ ==> exists|j: int| 0 <= j < NUM_TASKS && #[trigger] lowered_caller_of(before, after, j, k)
}

/// Lends the priority of `caller` to `target`, and on along the chain of
/// calls `target` itself waits in, as long as that makes a task more urgent.
fn inherit_priority(table: &mut TaskTable, caller_idx: TaskId, target_idx: TaskId)
    requires
        old(table).wf(),
        caller_idx != target_idx,
    ensures
        final(table).wf(),
        only_priorities_changed(*old(table), *final(table)),
        ({
            let p = old(table).spec_task(caller_idx@ as int).current_priority;
            &&& final(table).spec_task(target_idx@ as int).current_priority == if p < old(
                table,
            ).spec_task(target_idx@ as int).current_priority {
                p
            } else {
                old(table).spec_task(target_idx@ as int).current_priority
            }
            &&& forall|k: int|
                0 <= k < NUM_TASKS ==> {
                    let before = old(table).spec_task(k).current_priority;
                    let after = (#[trigger] final(table).spec_task(k)).current_priority;
                    after == before || (after == p && p < before)
                }
            &&& forall|k: int|
                0 <= k < NUM_TASKS && (#[trigger] final(table).spec_task(k)).current_priority
                    < old(table).spec_task(k).current_priority && old(table).spec_task(k).state is CallRequest
                    ==> final(table).spec_task(
                    old(table).spec_task(k).state->CallRequest_0@ as int,
                ).current_priority <= p
            &&& lowered_only_on_chain(*old(table), *final(table), target_idx)
        }),
{
    let ghost start = *table;
    let ghost p = start.spec_task(caller_idx@ as int).current_priority;
    proof {
        use_type_invariant(caller_idx);
        use_type_invariant(target_idx);
    }
    let mut c = caller_idx;
    let mut t = target_idx;
    let mut done = false;
    while !done
        invariant
            table.wf(),
            start.wf(),
            c != t,
            p == start.spec_task(caller_idx@ as int).current_priority,
            table.spec_task(c@ as int).current_priority == p,
            c@ < NUM_TASKS,
            t@ < NUM_TASKS,
            target_idx@ < NUM_TASKS,
            only_priorities_changed(start, *table),
            forall|k: int|
                0 <= k < NUM_TASKS ==> {
                    let before = start.spec_task(k).current_priority;
                    let after = (#[trigger] table.spec_task(k)).current_priority;
                    after == before || (after == p && p < before)
                },
            !done ==> (t == target_idx || table.spec_task(target_idx@ as int).current_priority == p),
            done ==> table.spec_task(target_idx@ as int).current_priority == if p < start.spec_task(
                target_idx@ as int,
            ).current_priority {
                p
            } else {
                start.spec_task(target_idx@ as int).current_priority
            },
            forall|k: int|
                0 <= k < NUM_TASKS && (#[trigger] table.spec_task(k)).current_priority
                    < start.spec_task(k).current_priority && start.spec_task(k).state is CallRequest
                    && (done || start.spec_task(k).state->CallRequest_0 != t) ==> table.spec_task(
                    start.spec_task(k).state->CallRequest_0@ as int,
                ).current_priority <= p,
            lowered_only_on_chain(start, *table, target_idx),
            t == target_idx || lowered_caller_of(start, *table, c@ as int, t@ as int),
        decreases count_above(*table, p, NUM_TASKS as int) + if done { 0nat } else { 1nat },
    {
        proof {
            TaskId::lemma_view_injective(t, target_idx);
        }
        let caller_priority = table.get(c).current_priority;
        let target_priority = table.get(t).current_priority;
        if caller_priority < target_priority {
            let ghost before = *table;
            let target = table.task_mut(t);
            target.current_priority = caller_priority;
            let next = target.state;
            proof {
                assert(task_wf(before.spec_task(t@ as int), t@ as int));
                TaskTable::lemma_wf_update(before, *table, t@ as int, t@ as int);
                lemma_count_above_lowered(before, *table, p, t@ as int, NUM_TASKS as int);
                if t == target_idx {
                    assert(table.spec_task(target_idx@ as int).current_priority == p);
                } else {
                    assert(table.spec_task(target_idx@ as int) == before.spec_task(target_idx@ as int));
                }
                let tp = start.spec_task(target_idx@ as int).current_priority;
                let bp = before.spec_task(target_idx@ as int).current_priority;
                assert(bp == tp || (bp == p && p < tp));
                assert forall|k: int| 0 <= k < NUM_TASKS implies #[trigger] table.spec_task(k) == (TaskView {
                    current_priority: table.spec_task(k).current_priority,
                    ..start.spec_task(k)
                }) by {
                    if k != t@ {
                        assert(table.spec_task(k) == before.spec_task(k));
                    }
                }
                assert forall|k: int|
                    0 <= k < NUM_TASKS && (#[trigger] table.spec_task(k)).current_priority
                        < start.spec_task(k).current_priority && k != target_idx@ implies exists|j: int|
                    0 <= j < NUM_TASKS && #[trigger] lowered_caller_of(start, *table, j, k) by {
                    if k == t@ {
                        assert(before.spec_task(c@ as int) == table.spec_task(c@ as int));
                        assert(lowered_caller_of(start, *table, c@ as int, k));
                    } else {
                        assert(table.spec_task(k) == before.spec_task(k));
                        let j = choose|j: int| 0 <= j < NUM_TASKS && #[trigger] lowered_caller_of(start, before, j, k);
                        if j == t@ {
                            assert(before.spec_task(j).current_priority == p);
                        } else {
                            assert(table.spec_task(j) == before.spec_task(j));
                        }
                        assert(lowered_caller_of(start, *table, j, k));
                    }
                }
            }
            match next {
                TaskState::CallRequest(x) => {
                    proof {
                        assert(task_wf(table.spec_task(t@ as int), t@ as int));
                        TaskId::lemma_view_injective(x, t);
                    }
                    proof {
                        assert(table.spec_task(t@ as int).state == start.spec_task(t@ as int).state);
                        assert(lowered_caller_of(start, *table, t@ as int, x@ as int));
                    }
                    c = t;
                    t = x;
                },
                _ => {
                    done = true;
                },
            }
        } else {
            proof {
                let tp = start.spec_task(target_idx@ as int).current_priority;
                let bp = table.spec_task(target_idx@ as int).current_priority;
                assert(bp == tp || (bp == p && p < tp));
            }
            done = true;
        }
    }
}

} // verus!

verus! {

/// `a` and `b` agree on everything but the current priority.
pub open spec fn same_but_priority(a: TaskView, b: TaskView) -> bool {
    a == (TaskView { current_priority: a.current_priority, ..b })
}

/// The caller was stopped: it is Fatal, nothing else changed, and another
/// task must be picked.
pub open spec fn panicked(before: TaskTable, after: TaskTable, caller: TaskId, r: Schedule) -> bool {
    &&& r == Schedule::Other
    &&& after.spec_task(caller@ as int) == (TaskView {
        state: TaskState::Fatal,
        ..before.spec_task(caller@ as int)
    })
    &&& unchanged_except(before, after, caller@ as int, caller@ as int)
}

/// The message of task `k` was delivered to `target`, which was waiting in
/// Receive: `k` now waits for the reply, `target` is ready with the message.
pub open spec fn call_delivered(before: TaskTable, after: TaskTable, k: int, target: TaskId) -> bool {
    let t = target@ as int;
    &&& after.spec_task(k) == (TaskView { state: TaskState::CallResponse(target), ..before.spec_task(k) })
    &&& after.spec_task(t).state == TaskState::Ready
    &&& after.spec_task(t).current_priority == before.spec_task(t).current_priority
    &&& receive_result(
        before.spec_task(t),
        after.spec_task(t),
        Some((before.spec_task(k).index, before.spec_task(k).context)),
    )
    &&& unchanged_except(before, after, k, t)
}

proof fn lemma_scan_equiv(a: TaskTable, b: TaskTable, wanted: TaskState)
    requires
        forall|j: int|
            0 <= j < NUM_TASKS ==> ((#[trigger] a.spec_task(j)).state == wanted <==> b.spec_task(j).state
                == wanted) && a.spec_task(j).current_priority == b.spec_task(j).current_priority,
    ensures
        any_in_state(a, wanted) == any_in_state(b, wanted),
        forall|k: int| first_in_priority(a, k, wanted) == first_in_priority(b, k, wanted),
{
    if any_in_state(a, wanted) {
        let j = choose|j: int| 0 <= j < NUM_TASKS && (#[trigger] a.spec_task(j)).state == wanted;
        assert(b.spec_task(j).state == wanted);
    }
    if any_in_state(b, wanted) {
        let j = choose|j: int| 0 <= j < NUM_TASKS && (#[trigger] b.spec_task(j)).state == wanted;
        assert(a.spec_task(j).state == wanted);
    }
    assert forall|k: int| first_in_priority(a, k, wanted) == first_in_priority(b, k, wanted) by {
        if first_in_priority(a, k, wanted) {
            assert forall|j: int| 0 <= j < NUM_TASKS && (#[trigger] b.spec_task(j)).state == wanted implies ranks_before(
                b.spec_task(k),
                k,
                b.spec_task(j),
                j,
            ) by {
                assert(a.spec_task(j).state == wanted);
            }
        }
        if first_in_priority(b, k, wanted) {
            assert forall|j: int| 0 <= j < NUM_TASKS && (#[trigger] a.spec_task(j)).state == wanted implies ranks_before(
                a.spec_task(k),
                k,
                a.spec_task(j),
                j,
            ) by {
                assert(b.spec_task(j).state == wanted);
            }
        }
    }
}

/// What a receive by `caller` does: take the call of the most urgent task
/// waiting on it, else wake at once on pending notifications, else block.
pub open spec fn receive_done(before: TaskTable, after: TaskTable, caller: TaskId, r: Schedule) -> bool {
    let c = caller@ as int;
    let wanted = TaskState::CallRequest(caller);
    if any_in_state(before, wanted) {
        &&& r == Schedule::Same
        &&& exists|k: int| first_in_priority(before, k, wanted) && #[trigger] call_delivered(before, after, k, caller)
    } else if before.spec_task(c).notifications != 0 {
        &&& r == Schedule::Same
        &&& after.spec_task(c).state == TaskState::Ready
        &&& after.spec_task(c).current_priority == before.spec_task(c).current_priority
        &&& receive_result(before.spec_task(c), after.spec_task(c), None)
        &&& unchanged_except(before, after, c, c)
    } else {
        &&& r == Schedule::Other
        &&& after.spec_task(c) == (TaskView { state: TaskState::Receive, ..before.spec_task(c) })
        &&& unchanged_except(before, after, c, c)
    }
}

/// Waits for a call or a notification.
pub fn do_receive(table: &mut TaskTable, caller_idx: TaskId) -> (r: Schedule)
    requires
        old(table).wf(),
        old(table).spec_task(caller_idx@ as int).state == TaskState::Ready,
    ensures
        final(table).wf(),
        receive_done(*old(table), *final(table), caller_idx, r),
{
    let ghost start = *table;
    let caller = table.task_mut(caller_idx);
    caller.set_state(TaskState::Receive);
    proof {
        assert(task_wf(start.spec_task(caller_idx@ as int), caller_idx@ as int));
        TaskTable::lemma_wf_update(start, *table, caller_idx@ as int, caller_idx@ as int);
    }
    let ghost received = *table;
    let target_idx = caller_idx;
    let highest_caller = priority_scan(table, TaskState::CallRequest(target_idx));
    proof {
        let wanted = TaskState::CallRequest(caller_idx);
        assert forall|j: int| 0 <= j < NUM_TASKS implies ((#[trigger] received.spec_task(j)).state == wanted
            <==> start.spec_task(j).state == wanted) && received.spec_task(j).current_priority
            == start.spec_task(j).current_priority by {
            if j != caller_idx@ {
                assert(received.spec_task(j) == start.spec_task(j));
            }
        }
        lemma_scan_equiv(received, start, wanted);
    }
    match highest_caller {
        Some(k) => {
            proof {
                assert(first_in_priority(start, k@ as int, TaskState::CallRequest(caller_idx)));
                assert(task_wf(received.spec_task(k@ as int), k@ as int));
                TaskId::lemma_view_injective(k, target_idx);
            }
            let (caller, target) = table.get_pair_mut(k, target_idx);
            deliver_call(caller, target);
            proof {
                assert(task_wf(table.spec_task(k@ as int), k@ as int));
                assert(task_wf(table.spec_task(target_idx@ as int), target_idx@ as int));
                TaskTable::lemma_wf_update(received, *table, k@ as int, target_idx@ as int);
                assert(call_delivered(start, *table, k@ as int, caller_idx));
            }
            Schedule::Same
        },
        None => {
            let target = table.task_mut(target_idx);
            let woke = target.post(0);
            proof {
                assert(task_wf(table.spec_task(target_idx@ as int), target_idx@ as int));
                TaskTable::lemma_wf_update(received, *table, target_idx@ as int, target_idx@ as int);
                assert(start.spec_task(caller_idx@ as int).notifications | 0 == start.spec_task(
                    caller_idx@ as int,
                ).notifications) by (bit_vector);
            }
            if woke {
                Schedule::Same
            } else {
                Schedule::Other
            }
        },
    }
}

} // verus!

verus! {

/// What a call from `caller` to `target` does: the caller blocks on the
/// target, the message is delivered at once if the target waits in Receive,
/// and the target (and the chain of calls it waits in) inherits the
/// caller's priority.
pub open spec fn call_done(before: TaskTable, after: TaskTable, caller: TaskId, target: TaskId, r: Schedule) -> bool {
    if caller == target {
        panicked(before, after, caller, r)
    } else {
        let c = caller@ as int;
        let t = target@ as int;
        let p = before.spec_task(c).current_priority;
        let ts = before.spec_task(t).state;
        &&& r == match ts {
            TaskState::Receive => Schedule::Exactly(target),
            TaskState::Ready => Schedule::Exactly(target),
            _ => Schedule::Other,
        }
        &&& same_but_priority(
            after.spec_task(c),
            TaskView {
                state: if ts == TaskState::Receive {
                    TaskState::CallResponse(target)
                } else {
                    TaskState::CallRequest(target)
                },
                ..before.spec_task(c)
            },
        )
        &&& ts == TaskState::Receive ==> {
            &&& after.spec_task(t).state == TaskState::Ready
            &&& receive_result(
                before.spec_task(t),
                after.spec_task(t),
                Some((before.spec_task(c).index, before.spec_task(c).context)),
            )
        }
        &&& ts != TaskState::Receive ==> same_but_priority(after.spec_task(t), before.spec_task(t))
        &&& forall|k: int|
            0 <= k < NUM_TASKS && k != c && k != t ==> same_but_priority(
                #[trigger] after.spec_task(k),
                before.spec_task(k),
            )
        &&& after.spec_task(t).current_priority == if p < before.spec_task(t).current_priority {
            p
        } else {
            before.spec_task(t).current_priority
        }
        &&& forall|k: int|
            0 <= k < NUM_TASKS ==> {
                let b = before.spec_task(k).current_priority;
                let a = (#[trigger] after.spec_task(k)).current_priority;
                a == b || (a == p && p < b)
            }
        &&& forall|k: int|
            0 <= k < NUM_TASKS && (#[trigger] after.spec_task(k)).current_priority
                < before.spec_task(k).current_priority && after.spec_task(k).state is CallRequest
                ==> after.spec_task(after.spec_task(k).state->CallRequest_0@ as int).current_priority <= p
        &&& lowered_only_on_chain(before, after, target)
        &&& after.spec_interrupts() == before.spec_interrupts()
        &&& after.spec_clock() == before.spec_clock()
        &&& after.spec_deadline() == before.spec_deadline()
    }
}

/// Calls `target`: blocks the caller until the target replies.
pub fn do_call(table: &mut TaskTable, caller_idx: TaskId, target_idx: TaskId) -> (r: Schedule)
    requires
        old(table).wf(),
        old(table).spec_task(caller_idx@ as int).state == TaskState::Ready,
        call_in_len(old(table).spec_task(caller_idx@ as int).context) <= MAX_MESSAGE_SIZE,
    ensures
        final(table).wf(),
        call_done(*old(table), *final(table), caller_idx, target_idx, r),
{
    if !is_valid_target(caller_idx, target_idx) {
        return do_panic(table, caller_idx);
    }
    let ghost start = *table;
    proof {
        use_type_invariant(caller_idx);
        use_type_invariant(target_idx);
        TaskId::lemma_view_injective(caller_idx, target_idx);
    }
    let (caller, target) = table.get_pair_mut(caller_idx, target_idx);
    caller.set_state(TaskState::CallRequest(target_idx));
    let schedule = match target.state() {
        TaskState::Receive => {
            deliver_call(caller, target);
            Schedule::Exactly(target_idx)
        },
        TaskState::Ready => Schedule::Exactly(target_idx),
        _ => Schedule::Other,
    };
    proof {
        assert(task_wf(start.spec_task(caller_idx@ as int), caller_idx@ as int));
        assert(task_wf(start.spec_task(target_idx@ as int), target_idx@ as int));
        TaskTable::lemma_wf_update(start, *table, caller_idx@ as int, target_idx@ as int);
    }
    let ghost mid = *table;
    inherit_priority(table, caller_idx, target_idx);
    proof {
        assert forall|k: int| 0 <= k < NUM_TASKS && k != caller_idx@ && k != target_idx@ implies same_but_priority(
            #[trigger] table.spec_task(k),
            start.spec_task(k),
        ) by {
            assert(mid.spec_task(k) == start.spec_task(k));
            assert(table.spec_task(k) == (TaskView {
                current_priority: table.spec_task(k).current_priority,
                ..mid.spec_task(k)
            }));
        }
        assert(table.spec_task(caller_idx@ as int) == (TaskView {
            current_priority: table.spec_task(caller_idx@ as int).current_priority,
            ..mid.spec_task(caller_idx@ as int)
        }));
        assert(table.spec_task(target_idx@ as int) == (TaskView {
            current_priority: table.spec_task(target_idx@ as int).current_priority,
            ..mid.spec_task(target_idx@ as int)
        }));
        assert forall|k: int| 0 <= k < NUM_TASKS implies ({
            let b = start.spec_task(k).current_priority;
            let a = (#[trigger] table.spec_task(k)).current_priority;
            let p = start.spec_task(caller_idx@ as int).current_priority;
            a == b || (a == p && p < b)
        }) by {
            assert(mid.spec_task(k).current_priority == start.spec_task(k).current_priority);
        }
        assert forall|k: int|
            0 <= k < NUM_TASKS && (#[trigger] table.spec_task(k)).current_priority
                < start.spec_task(k).current_priority && table.spec_task(k).state is CallRequest
                implies table.spec_task(table.spec_task(k).state->CallRequest_0@ as int).current_priority
                <= start.spec_task(caller_idx@ as int).current_priority by {
            assert(mid.spec_task(k).current_priority == start.spec_task(k).current_priority);
            assert(table.spec_task(k) == (TaskView {
                current_priority: table.spec_task(k).current_priority,
                ..mid.spec_task(k)
            }));
        }
        assert forall|k: int|
            0 <= k < NUM_TASKS && (#[trigger] table.spec_task(k)).current_priority < start.spec_task(k).current_priority
                && k != target_idx@ implies exists|j: int| 0 <= j < NUM_TASKS && #[trigger] lowered_caller_of(start, *table, j, k) by {
            assert(mid.spec_task(k).current_priority == start.spec_task(k).current_priority);
            let j = choose|j: int| 0 <= j < NUM_TASKS && #[trigger] lowered_caller_of(mid, *table, j, k);
            assert(mid.spec_task(j).current_priority == start.spec_task(j).current_priority);
            assert(lowered_caller_of(start, *table, j, k));
        }
    }
    schedule
}

proof fn lemma_inherited_same(a: TaskTable, b: TaskTable, idx: TaskId, n: int)
    requires
        n <= NUM_TASKS,
        a.spec_task(idx@ as int).descriptor == b.spec_task(idx@ as int).descriptor,
        forall|k: int|
            0 <= k < n ==> ((#[trigger] a.spec_task(k)).state == TaskState::CallRequest(idx) <==> b.spec_task(k).state
                == TaskState::CallRequest(idx)) && (a.spec_task(k).state == TaskState::CallRequest(idx)
                ==> a.spec_task(k).current_priority == b.spec_task(k).current_priority),
    ensures
        inherited_priority(a, idx, n) == inherited_priority(b, idx, n),
    decreases n,
{
    if n > 0 {
        lemma_inherited_same(a, b, idx, n - 1);
    }
}

/// What a reply from `caller` to `target` does: the reply reaches the target
/// only if it waits for this very caller's reply; then the caller gives up
/// any priority no longer owed, and the more urgent of the two runs.
pub open spec fn send_done(before: TaskTable, after: TaskTable, caller: TaskId, target: TaskId, r: Schedule) -> bool {
    let c = caller@ as int;
    let t = target@ as int;
    if caller == target || before.spec_task(t).state != TaskState::CallResponse(caller) {
        panicked(before, after, caller, r)
    } else {
        &&& after.spec_task(t).state == TaskState::Ready
        &&& after.spec_task(t).current_priority == before.spec_task(t).current_priority
        &&& reply_result(before.spec_task(t), after.spec_task(t), before.spec_task(c).context)
        &&& after.spec_task(c) == (TaskView {
            current_priority: inherited_priority(before, caller, NUM_TASKS as int),
            ..before.spec_task(c)
        })
        &&& r == if after.spec_task(t).current_priority < after.spec_task(c).current_priority {
            Schedule::Exactly(target)
        } else {
            Schedule::Same
        }
        &&& unchanged_except(before, after, c, t)
    }
}

/// Replies to `target`, which must be waiting for the caller's reply.
pub fn do_send(table: &mut TaskTable, caller_idx: TaskId, target_idx: TaskId) -> (r: Schedule)
    requires
        old(table).wf(),
        send_in_len(old(table).spec_task(caller_idx@ as int).context) <= MAX_MESSAGE_SIZE,
    ensures
        final(table).wf(),
        send_done(*old(table), *final(table), caller_idx, target_idx, r),
{
    if !is_valid_target(caller_idx, target_idx) {
        return do_panic(table, caller_idx);
    }
    let ghost start = *table;
    proof {
        use_type_invariant(caller_idx);
        use_type_invariant(target_idx);
        TaskId::lemma_view_injective(caller_idx, target_idx);
    }
    match table.get(target_idx).state() {
        TaskState::CallResponse(blocked_on) => {
            if blocked_on == caller_idx {
                let (caller, target) = table.get_pair_mut(caller_idx, target_idx);
                set_call_result(target, caller);
                target.set_state(TaskState::Ready);
                let target_priority = target.current_priority;
                proof {
                    assert(task_wf(start.spec_task(caller_idx@ as int), caller_idx@ as int));
                    TaskTable::lemma_wf_update(start, *table, caller_idx@ as int, target_idx@ as int);
                }
                let ghost mid = *table;
                proof {
                    assert forall|k: int| 0 <= k < NUM_TASKS implies ((#[trigger] mid.spec_task(k)).state
                        == TaskState::CallRequest(caller_idx) <==> start.spec_task(k).state
                        == TaskState::CallRequest(caller_idx)) && (mid.spec_task(k).state
                        == TaskState::CallRequest(caller_idx) ==> mid.spec_task(k).current_priority
                        == start.spec_task(k).current_priority) by {
                        if k != caller_idx@ && k != target_idx@ {
                            assert(mid.spec_task(k) == start.spec_task(k));
                        }
                    }
                    lemma_inherited_same(mid, start, caller_idx, NUM_TASKS as int);
                }
                let caller_priority = recalculate_priority(table, caller_idx);
                if target_priority < caller_priority {
                    Schedule::Exactly(target_idx)
                } else {
                    Schedule::Same
                }
            } else {
                do_panic(table, caller_idx)
            }
        },
        _ => do_panic(table, caller_idx),
    }
}

/// What a notification from `caller` to `target` does: the bits accumulate
/// and a receiving target wakes; the target runs if it is more urgent.
pub open spec fn notify_done(
    before: TaskTable,
    after: TaskTable,
    caller: TaskId,
    target: TaskId,
    bits: u32,
    r: Schedule,
) -> bool {
    let t = target@ as int;
    if caller == target {
        panicked(before, after, caller, r)
    } else {
        let woke = (before.spec_task(t).notifications | bits) != 0 && before.spec_task(t).state
            == TaskState::Receive;
        &&& posted(before.spec_task(t), after.spec_task(t), bits, woke)
        &&& r == if woke {
            wake_schedule(after, caller, target)
        } else {
            Schedule::Same
        }
        &&& unchanged_except(before, after, t, t)
    }
}

/// Posts notification bits to another task.
pub fn do_notify(table: &mut TaskTable, caller_idx: TaskId, target_idx: TaskId, notifications: u32) -> (r: Schedule)
    requires
        old(table).wf(),
    ensures
        final(table).wf(),
        notify_done(*old(table), *final(table), caller_idx, target_idx, notifications, r),
{
    if !is_valid_target(caller_idx, target_idx) {
        return do_panic(table, caller_idx);
    }
    let ghost start = *table;
    proof {
        use_type_invariant(caller_idx);
        use_type_invariant(target_idx);
        TaskId::lemma_view_injective(caller_idx, target_idx);
    }
    let target = table.task_mut(target_idx);
    let woke = target.post(notifications);
    proof {
        assert(task_wf(start.spec_task(target_idx@ as int), target_idx@ as int));
        TaskTable::lemma_wf_update(start, *table, target_idx@ as int, target_idx@ as int);
    }
    if woke {
        let target_priority = table.get(target_idx).current_priority;
        let caller_priority = table.get(caller_idx).current_priority;
        if target_priority < caller_priority {
            Schedule::Exactly(target_idx)
        } else {
            Schedule::Same
        }
    } else {
        Schedule::Same
    }
}

} // verus!

verus! {

/// What a timer request does: a periodic request without a positive period
/// stops the caller; otherwise the timer is armed (or, with a zero
/// deadline, disabled) and the caller keeps running.
pub open spec fn set_timer_done(
    before: TaskTable,
    after: TaskTable,
    caller: TaskId,
    periodic: bool,
    deadline: u32,
    now_ticks: u64,
    r: Schedule,
) -> bool {
    let c = caller@ as int;
    let ticks = spec_us_to_ticks(deadline, before.spec_clock().tick_frequency);
    if periodic && (deadline == 0 || ticks == 0) {
        panicked(before, after, caller, r)
    } else {
        &&& r == Schedule::Same
        &&& forall|k: int|
            0 <= k < NUM_TASKS && k != c ==> #[trigger] after.spec_task(k) == before.spec_task(k)
        &&& after.spec_interrupts() == before.spec_interrupts()
        &&& after.spec_clock() == before.spec_clock()
        &&& if deadline == 0 {
            &&& after.spec_task(c) == (TaskView {
                timer_deadline: NO_DEADLINE,
                timer_period: None,
                ..before.spec_task(c)
            })
            &&& after.spec_deadline() == before.spec_deadline()
        } else {
            let d = now_ticks.wrapping_add(ticks);
            &&& after.spec_task(c) == (TaskView {
                timer_deadline: d,
                timer_period: if periodic {
                    Some(ticks)
                } else {
                    None
                },
                ..before.spec_task(c)
            })
            &&& after.spec_deadline() == spec_merged_deadline(before.spec_deadline(), d)
        }
    }
}

/// Arms, re-arms or cancels the caller's timer at tick `now_ticks`.
/// `deadline` is in microseconds: a delay for a one-shot timer, the period
/// of a periodic one; zero cancels a one-shot timer.
pub fn do_set_timer(table: &mut TaskTable, caller_idx: TaskId, periodic: bool, deadline: u32, now_ticks: u64) -> (r: Schedule)
    requires
        old(table).wf(),
    ensures
        final(table).wf(),
        set_timer_done(*old(table), *final(table), caller_idx, periodic, deadline, now_ticks, r),
{
    if periodic && deadline == 0 {
        return do_panic(table, caller_idx);
    }
    let clock = table.clock;
    if periodic && us_to_ticks(deadline, clock) == 0 {
        return do_panic(table, caller_idx);
    }
    let ghost start = *table;
    let mut programmed = table.deadline;
    let caller = table.task_mut(caller_idx);
    caller.set_timer(periodic, deadline, now_ticks, clock, &mut programmed);
    let ghost mid = *table;
    proof {
        assert(unchanged_except(start, mid, caller_idx@ as int, caller_idx@ as int));
    }
    table.deadline = programmed;
    proof {
        assert(task_wf(start.spec_task(caller_idx@ as int), caller_idx@ as int));
        assert forall|k: int| 0 <= k < NUM_TASKS implies task_wf(#[trigger] table.spec_task(k), k) by {
            assert(table.spec_task(k) == mid.spec_task(k));
            if k != caller_idx@ {
                assert(mid.spec_task(k) == start.spec_task(k));
            }
        }
        assert forall|k: int| 0 <= k < NUM_TASKS && k != caller_idx@ implies #[trigger] table.spec_task(k)
            == start.spec_task(k) by {
            assert(table.spec_task(k) == mid.spec_task(k));
            assert(mid.spec_task(k) == start.spec_task(k));
        }
    }
    Schedule::Same
}

/// What an interrupt control request does: only the owner of a routed
/// interrupt may use it, and it changes only whether the source is enabled.
pub open spec fn interrupt_control_done(
    before: TaskTable,
    after: TaskTable,
    caller: TaskId,
    interrupt: usize,
    control: InterruptControl,
    r: Schedule,
) -> bool {
    match before.spec_interrupts().spec_lookup(interrupt as int) {
        Some(d) => if d.spec_task_id() as nat != caller@ {
            panicked(before, after, caller, r)
        } else {
            let irq = before.spec_interrupts();
            &&& r == Schedule::Same
            &&& forall|k: int| 0 <= k < NUM_TASKS ==> #[trigger] after.spec_task(k) == before.spec_task(k)
            &&& after.spec_clock() == before.spec_clock()
            &&& after.spec_deadline() == before.spec_deadline()
            &&& after.spec_interrupts().wf()
            &&& after.spec_interrupts().spec_min() == irq.spec_min()
            &&& after.spec_interrupts().spec_descriptors() == irq.spec_descriptors()
            &&& after.spec_interrupts().spec_enabled() == irq.spec_enabled().update(
                interrupt - irq.spec_min(),
                control != InterruptControl::Disable,
            )
        },
        None => panicked(before, after, caller, r),
    }
}

/// Enables, disables or completes an interrupt that the caller owns.
pub fn do_interrupt_control(
    table: &mut TaskTable,
    caller_idx: TaskId,
    interrupt: usize,
    control: InterruptControl,
) -> (r: Schedule)
    requires
        old(table).wf(),
    ensures
        final(table).wf(),
        interrupt_control_done(*old(table), *final(table), caller_idx, interrupt, control, r),
{
    match table.interrupts.get_interrupt_descriptor(interrupt) {
        Some(descriptor) => {
            if caller_idx.as_u8() != descriptor.task_id() {
                do_panic(table, caller_idx)
            } else {
                let enable = match control {
                    InterruptControl::Disable => false,
                    InterruptControl::Enable => true,
                    InterruptControl::Complete => true,
                };
                let ghost start = *table;
                table.interrupts.set_enabled(interrupt, enable);
                proof {
                    assert forall|k: int| 0 <= k < NUM_TASKS implies #[trigger] table.spec_task(k) == start.spec_task(k) by {
                    }
                    assert forall|i: int| 0 <= i < table.interrupts.spec_descriptors().len() implies {
                        let owner = #[trigger] table.interrupts.spec_descriptors()[i].spec_task_id();
                        owner == UNOWNED || (owner as nat) < NUM_TASKS
                    } by {
                        assert(table.interrupts.spec_descriptors()[i] == start.interrupts.spec_descriptors()[i]);
                    }
                }
                Schedule::Same
            }
        },
        None => do_panic(table, caller_idx),
    }
}

/// Whether the timer of `before` has expired at `now_ticks`; an expired
/// timer of a receiving task wakes it.
pub open spec fn timer_expired(before: TaskView, now_ticks: u64) -> bool {
    now_ticks >= before.timer_deadline
}

/// The timer of one task after evaluation at `now_ticks`: an expired
/// periodic timer is re-armed one period after `now_ticks`, an expired
/// one-shot timer is disabled, and the timer notification is posted.
pub open spec fn timer_evaluated(before: TaskView, after: TaskView, now_ticks: u64) -> bool {
    if !timer_expired(before, now_ticks) {
        after == before
    } else {
        let rearmed = match before.timer_period {
            Some(p) => now_ticks.wrapping_add(p),
            None => NO_DEADLINE,
        };
        posted(
            TaskView { timer_deadline: rearmed, ..before },
            after,
            SYS_NOTIFICATION_TIMER,
            before.state == TaskState::Receive,
        )
    }
}

/// The deadline re-armed for task `k` by an evaluation at `now_ticks`, if
/// its periodic timer expired.
pub open spec fn rearmed_deadline(before: TaskTable, k: int, now_ticks: u64) -> Option<u64> {
    let t = before.spec_task(k);
    if timer_expired(t, now_ticks) && t.timer_period is Some {
        Some(now_ticks.wrapping_add(t.timer_period->Some_0))
    } else {
        None
    }
}

/// Task `k` is woken by the timer evaluation.
pub open spec fn timer_woken(before: TaskTable, k: int, now_ticks: u64) -> bool {
    timer_expired(before.spec_task(k), now_ticks) && before.spec_task(k).state == TaskState::Receive
}

/// What a timer evaluation at `now_ticks` does: every task's timer is
/// evaluated, the hardware deadline is pulled in to the soonest re-armed
/// periodic deadline, and the most urgent woken task other than `caller`
/// runs if it is more urgent than `caller`.
pub open spec fn timers_done(before: TaskTable, after: TaskTable, caller: TaskId, now_ticks: u64, r: Schedule) -> bool {
    let cp = before.spec_task(caller@ as int).current_priority;
    &&& forall|k: int|
        0 <= k < NUM_TASKS ==> timer_evaluated(before.spec_task(k), #[trigger] after.spec_task(k), now_ticks)
    &&& after.spec_interrupts() == before.spec_interrupts()
    &&& after.spec_clock() == before.spec_clock()
    &&& after.spec_deadline() <= before.spec_deadline()
    &&& forall|k: int|
        0 <= k < NUM_TASKS && #[trigger] rearmed_deadline(before, k, now_ticks) is Some ==> after.spec_deadline()
            <= rearmed_deadline(before, k, now_ticks)->Some_0
    &&& (after.spec_deadline() == before.spec_deadline() || exists|k: int|
        0 <= k < NUM_TASKS && #[trigger] rearmed_deadline(before, k, now_ticks) == Some(after.spec_deadline()))
    &&& match r {
        Schedule::Same => forall|k: int|
            0 <= k < NUM_TASKS && #[trigger] timer_woken(before, k, now_ticks) && k != caller@
                ==> before.spec_task(k).current_priority >= cp,
        Schedule::Exactly(t) => {
            &&& timer_woken(before, t@ as int, now_ticks)
            &&& t != caller
            &&& before.spec_task(t@ as int).current_priority < cp
            &&& forall|k: int|
                0 <= k < NUM_TASKS && #[trigger] timer_woken(before, k, now_ticks) && k != caller@
                    ==> ranks_before(before.spec_task(t@ as int), t@ as int, before.spec_task(k), k)
        },
        Schedule::Other => false,
    }
}

proof fn lemma_timer_bit_nonzero(n: u32)
    ensures
        n | SYS_NOTIFICATION_TIMER != 0,
{
    assert(n | 0x8000_0000u32 != 0) by (bit_vector);
}

/// Evaluates every task's timer at `now_ticks` (a timer interrupt taken
/// while `caller` ran).
pub fn evaluate_timers(table: &mut TaskTable, caller_idx: TaskId, now_ticks: u64) -> (r: Schedule)
    requires
        old(table).wf(),
    ensures
        final(table).wf(),
        timers_done(*old(table), *final(table), caller_idx, now_ticks, r),
{
    let ghost start = *table;
    proof {
        use_type_invariant(caller_idx);
    }
    let mut current_priority = table.get(caller_idx).current_priority;
    let mut sched = Schedule::Same;
    let mut i: usize = 0;
    while i < NUM_TASKS
        invariant
            table.wf(),
            start.wf(),
            i <= NUM_TASKS,
            caller_idx@ < NUM_TASKS,
            table.spec_interrupts() == start.spec_interrupts(),
            table.spec_clock() == start.spec_clock(),
            forall|k: int|
                0 <= k < i ==> timer_evaluated(start.spec_task(k), #[trigger] table.spec_task(k), now_ticks),
            forall|k: int| i <= k < NUM_TASKS ==> #[trigger] table.spec_task(k) == start.spec_task(k),
            table.spec_deadline() <= start.spec_deadline(),
            forall|k: int|
                0 <= k < i && #[trigger] rearmed_deadline(start, k, now_ticks) is Some
                    ==> table.spec_deadline() <= rearmed_deadline(start, k, now_ticks)->Some_0,
            (table.spec_deadline() == start.spec_deadline() || exists|k: int|
                0 <= k < i && #[trigger] rearmed_deadline(start, k, now_ticks) == Some(table.spec_deadline())),
            match sched {
                Schedule::Same => {
                    &&& current_priority == start.spec_task(caller_idx@ as int).current_priority
                    &&& forall|k: int|
                        0 <= k < i && #[trigger] timer_woken(start, k, now_ticks) && k != caller_idx@
                            ==> start.spec_task(k).current_priority >= current_priority
                },
                Schedule::Exactly(t) => {
                    &&& t@ < i
                    &&& timer_woken(start, t@ as int, now_ticks)
                    &&& t != caller_idx
                    &&& current_priority == start.spec_task(t@ as int).current_priority
                    &&& current_priority < start.spec_task(caller_idx@ as int).current_priority
                    &&& forall|k: int|
                        0 <= k < i && #[trigger] timer_woken(start, k, now_ticks) && k != caller_idx@
                            ==> ranks_before(start.spec_task(t@ as int), t@ as int, start.spec_task(k), k)
                },
                Schedule::Other => false,
            },
        decreases NUM_TASKS - i,
    {
        let ghost before = *table;
        let mut programmed = table.deadline;
        let task = table.task_mut(TaskId(i));
        let unblocked = task.evaluate_timer(now_ticks, &mut programmed);
        let task_priority = task.current_priority;
        let ghost mid = *table;
        table.deadline = programmed;
        proof {
            let t = before.spec_task(i as int);
            assert forall|k: int| 0 <= k < NUM_TASKS implies #[trigger] table.spec_task(k) == mid.spec_task(k) by {
            }
            assert forall|k: int| 0 <= k < NUM_TASKS && k != i implies #[trigger] mid.spec_task(k) == before.spec_task(k) by {
            }
            assert(task_wf(t, i as int));
            assert(t == start.spec_task(i as int));
            if timer_expired(t, now_ticks) {
                lemma_timer_bit_nonzero(t.notifications);
            }
            assert forall|k: int| 0 <= k < NUM_TASKS implies task_wf(#[trigger] table.spec_task(k), k) by {
                if k != i {
                    assert(table.spec_task(k) == before.spec_task(k));
                }
            }
            assert(rearmed_deadline(start, i as int, now_ticks) is Some ==> table.spec_deadline() == spec_merged_deadline(
                before.spec_deadline(),
                rearmed_deadline(start, i as int, now_ticks)->Some_0,
            ));
            assert(rearmed_deadline(start, i as int, now_ticks) is None ==> table.spec_deadline() == before.spec_deadline());
        }
        let id = TaskId(i);
        proof {
            TaskId::lemma_view_injective(id, caller_idx);
        }
        if unblocked && id != caller_idx && task_priority < current_priority {
            current_priority = task_priority;
            sched = Schedule::Exactly(id);
        }
        i = i + 1;
    }
    sched
}

/// What delivering `interrupt` to its owner does: the owner is posted the
/// interrupt's notification bits, and runs if it woke, is not `caller`, and
/// is more urgent than `caller`.
pub open spec fn interrupt_done(before: TaskTable, after: TaskTable, caller: TaskId, interrupt: usize, r: Schedule) -> bool {
    let d = before.spec_interrupts().spec_lookup(interrupt as int)->Some_0;
    let t = d.spec_task_id() as int;
    let woke = (before.spec_task(t).notifications | d.spec_notification()) != 0 && before.spec_task(t).state
        == TaskState::Receive;
    let switch = woke && t != caller@ && before.spec_task(t).current_priority < before.spec_task(
        caller@ as int,
    ).current_priority;
    &&& posted(before.spec_task(t), after.spec_task(t), d.spec_notification(), woke)
    &&& unchanged_except(before, after, t, t)
    &&& match r {
        Schedule::Exactly(id) => switch && id@ == t,
        Schedule::Same => !switch,
        Schedule::Other => false,
    }
}

/// Posts an interrupt's notification to the task that owns it.
pub fn handle_interrupt(table: &mut TaskTable, caller_idx: TaskId, interrupt: usize) -> (r: Schedule)
    requires
        old(table).wf(),
        old(table).spec_interrupts().spec_lookup(interrupt as int) is Some,
    ensures
        final(table).wf(),
        interrupt_done(*old(table), *final(table), caller_idx, interrupt, r),
{
    let ghost start = *table;
    let descriptor = match table.interrupts.get_interrupt_descriptor(interrupt) {
        Some(d) => d,
        None => unreached(),
    };
    let owner = descriptor.task_id();
    let target_idx = match TaskId::new(owner) {
        Some(id) => id,
        None => {
            proof {
                let irq = start.spec_interrupts();
                let i = interrupt - irq.spec_min();
                assert(irq.spec_descriptors()[i].spec_task_id() == owner);
            }
            unreached()
        },
    };
    let notification = descriptor.notification();
    let target = table.task_mut(target_idx);
    let woke = target.post(notification);
    proof {
        assert(task_wf(start.spec_task(target_idx@ as int), target_idx@ as int));
        TaskTable::lemma_wf_update(start, *table, target_idx@ as int, target_idx@ as int);
        TaskId::lemma_view_injective(target_idx, caller_idx);
    }
    proof {
        let irq = start.spec_interrupts();
        assert(irq.spec_lookup(interrupt as int) == Some(descriptor));
        assert(target_idx@ == descriptor.spec_task_id() as nat);
        use_type_invariant(caller_idx);
        assert(table.spec_task(target_idx@ as int).current_priority == start.spec_task(target_idx@ as int).current_priority);
    }
    if woke && target_idx != caller_idx {
        let target_priority = table.get(target_idx).current_priority;
        let caller_priority = table.get(caller_idx).current_priority;
        if target_priority < caller_priority {
            Schedule::Exactly(target_idx)
        } else {
            Schedule::Same
        }
    } else {
        Schedule::Same
    }
}

} // verus!

verus! {

/// The control block task `i` starts with: a boot task is ready at its base
/// priority at its entry point, any other task waits in Fatal for a reset.
pub open spec fn initial_task(descriptor: TaskDescriptor, i: int, t: TaskView) -> bool {
    &&& t.index as int == i
    &&& t.descriptor == descriptor
    &&& t.notifications == 0
    &&& if descriptor.flags.spec_contains(Flags::BOOT) {
        &&& t.state == TaskState::Ready
        &&& t.current_priority == descriptor.priority
        &&& t.context.pc == descriptor.init_pc
        &&& t.timer_deadline == NO_DEADLINE
        &&& t.timer_period is None
    } else {
        &&& t.state == TaskState::Fatal
        &&& t.current_priority == 0
        &&& t.timer_period is None
    }
}

/// The configuration is usable: between one and NUM_TASKS task
/// descriptors, an interrupt range that fits, and every routed interrupt
/// owned by a configured task.
pub open spec fn valid_config(
    descriptors: Seq<TaskDescriptor>,
    interrupt_min: usize,
    interrupts: Seq<InterruptDescriptor>,
) -> bool {
    &&& 1 <= descriptors.len() <= NUM_TASKS
    &&& interrupt_min + interrupts.len() <= usize::MAX
    &&& forall|i: int|
        0 <= i < interrupts.len() ==> {
            let owner = (#[trigger] interrupts[i]).spec_task_id();
            owner == UNOWNED || (owner as nat) < descriptors.len()
        }
}

/// A slot past the configured tasks: it never runs.
pub open spec fn unused_slot(i: int, t: TaskView) -> bool {
    &&& t.index as int == i
    &&& t.state == TaskState::Fatal
    &&& !t.descriptor.flags.spec_contains(Flags::BOOT)
    &&& t.timer_period is None
}

/// The description given to the slots past the configured tasks.
fn unused_descriptor() -> (r: TaskDescriptor)
    ensures
        !r.flags.spec_contains(Flags::BOOT),
{
    assert(0u8 & 0x01u8 != 0x01u8) by (bit_vector);
    TaskDescriptor {
        init_pc: 0,
        priority: 0xFF,
        flags: Flags { bits: 0 },
        arch: ArchTaskDescriptor { pmp_addr: [0u32; NUM_PMP_ENTRIES], pmp_cfg: 0 },
    }
}

impl TaskTable {
    /// Resets task `id` from any state, Fatal included: it is Ready at its
    /// base priority at its entry point, with its timer disabled, and every
    /// interrupt it owns is disabled.
    pub fn reset_task(&mut self, id: TaskId)
        requires
            old(self).wf(),
        ensures
            final(self).wf(),
            ({
                let t = old(self).spec_task(id@ as int);
                final(self).spec_task(id@ as int) == (TaskView {
                    state: TaskState::Ready,
                    current_priority: t.descriptor.priority,
                    context: SavedContext { pc: t.descriptor.init_pc, ..t.context },
                    timer_deadline: NO_DEADLINE,
                    timer_period: None,
                    ..t
                })
            }),
            forall|k: int|
                0 <= k < NUM_TASKS && k != id@ ==> #[trigger] final(self).spec_task(k) == old(self).spec_task(k),
            final(self).spec_clock() == old(self).spec_clock(),
            final(self).spec_deadline() == old(self).spec_deadline(),
            final(self).spec_interrupts().spec_min() == old(self).spec_interrupts().spec_min(),
            final(self).spec_interrupts().spec_descriptors() == old(self).spec_interrupts().spec_descriptors(),
            final(self).spec_interrupts().spec_enabled().len() == old(self).spec_interrupts().spec_enabled().len(),
            forall|i: int|
                0 <= i < old(self).spec_interrupts().spec_enabled().len()
                    ==> #[trigger] final(self).spec_interrupts().spec_enabled()[i] == (
                if old(self).spec_interrupts().spec_descriptors()[i].spec_task_id() as nat == id@ {
                    false
                } else {
                    old(self).spec_interrupts().spec_enabled()[i]
                }),
    {
        let ghost start = *self;
        let task = self.task_mut(id);
        task.reset();
        proof {
            assert(task_wf(start.spec_task(id@ as int), id@ as int));
            TaskTable::lemma_wf_update(start, *self, id@ as int, id@ as int);
        }
        let ghost mid = *self;
        let owner = id.as_u8();
        self.interrupts.reset_owned_by(owner);
        proof {
            assert forall|k: int| 0 <= k < NUM_TASKS implies #[trigger] self.spec_task(k) == mid.spec_task(k) by {
            }
            assert forall|i: int| 0 <= i < self.interrupts.spec_descriptors().len() implies {
                let o = #[trigger] self.interrupts.spec_descriptors()[i].spec_task_id();
                o == UNOWNED || (o as nat) < NUM_TASKS
            } by {
                assert(self.interrupts.spec_descriptors()[i] == mid.interrupts.spec_descriptors()[i]);
            }
        }
    }
}

/// Builds the task table from the static configuration: assigns each task
/// its index, starts the boot tasks, and picks the first task to run. The
/// hardware deadline starts disabled and every interrupt source disabled.
/// `None` when the configuration is unusable or no task starts on boot.
pub fn task_init(
    descriptors: Vec<TaskDescriptor>,
    interrupt_min: usize,
    interrupts: Vec<InterruptDescriptor>,
    clock: Clock,
) -> (r: Option<(TaskTable, TaskId)>)
    ensures
        match r {
            Some((table, first)) => {
                &&& valid_config(descriptors@, interrupt_min, interrupts@)
                &&& table.wf()
                &&& table.spec_configured() == descriptors@.len()
                &&& forall|i: int|
                    0 <= i < descriptors@.len() ==> initial_task(descriptors@[i], i, #[trigger] table.spec_task(i))
                &&& forall|i: int|
                    descriptors@.len() <= i < NUM_TASKS ==> unused_slot(i, #[trigger] table.spec_task(i))
                &&& table.spec_clock() == clock
                &&& table.spec_deadline() == NO_DEADLINE
                &&& table.spec_interrupts().spec_min() == interrupt_min
                &&& table.spec_interrupts().spec_descriptors() == interrupts@
                &&& forall|i: int|
                    0 <= i < interrupts@.len() ==> !#[trigger] table.spec_interrupts().spec_enabled()[i]
                &&& first_in_priority(table, first@ as int, TaskState::Ready)
            },
            None => !valid_config(descriptors@, interrupt_min, interrupts@) || forall|i: int|
                0 <= i < descriptors@.len() ==> !(#[trigger] descriptors@[i]).flags.spec_contains(Flags::BOOT),
        },
{
    let configured = descriptors.len();
    if configured == 0 || configured > NUM_TASKS {
        return None;
    }
    let mut j: usize = 0;
    while j < interrupts.len()
        invariant
            j <= interrupts@.len(),
            configured == descriptors@.len(),
            forall|i: int|
                0 <= i < j ==> {
                    let owner = (#[trigger] interrupts@[i]).spec_task_id();
                    owner == UNOWNED || (owner as nat) < configured
                },
        decreases interrupts@.len() - j,
    {
        let owner = interrupts[j].task_id();
        if owner != UNOWNED && owner as usize >= configured {
            return None;
        }
        j = j + 1;
    }
    let ghost interrupts_seq = interrupts@;
    let irq = match InterruptTable::new(interrupt_min, interrupts) {
        Some(t) => t,
        None => {
            return None;
        },
    };
    let mut tasks: Vec<Task> = Vec::new();
    let mut i: usize = 0;
    while i < NUM_TASKS
        invariant
            i <= NUM_TASKS,
            configured == descriptors@.len(),
            1 <= configured <= NUM_TASKS,
            tasks@.len() == i,
            forall|k: int| 0 <= k < i && k < configured ==> initial_task(descriptors@[k], k, #[trigger] tasks@[k]@),
            forall|k: int| configured <= k < i ==> unused_slot(k, #[trigger] tasks@[k]@),
            forall|k: int| 0 <= k < i ==> task_wf(#[trigger] tasks@[k]@, k),
        decreases NUM_TASKS - i,
    {
        let descriptor = if i < configured {
            descriptors[i]
        } else {
            unused_descriptor()
        };
        let mut task = Task::zeroed_at(descriptor);
        task.index = i as u8;
        if descriptor.flags.contains(Flags::BOOT) {
            task.reset();
        }
        tasks.push(task);
        i = i + 1;
    }
    let table = TaskTable { tasks, configured, interrupts: irq, clock, deadline: NO_DEADLINE };
    proof {
        assert forall|k: int| 0 <= k < NUM_TASKS implies task_wf(#[trigger] table.spec_task(k), k) by {
            assert(task_wf(table.tasks@[k]@, k));
        }
        assert forall|k: int| 0 <= k < configured implies initial_task(descriptors@[k], k, #[trigger] table.spec_task(k)) by {
            assert(initial_task(descriptors@[k], k, table.tasks@[k]@));
        }
        assert forall|k: int| configured <= k < NUM_TASKS implies unused_slot(k, #[trigger] table.spec_task(k)) by {
            assert(unused_slot(k, table.tasks@[k]@));
        }
        assert forall|k: int| 0 <= k < table.interrupts.spec_descriptors().len() implies {
            let owner = #[trigger] table.interrupts.spec_descriptors()[k].spec_task_id();
            owner == UNOWNED || (owner as nat) < configured
        } by {
            assert(table.interrupts.spec_descriptors()[k] == interrupts_seq[k]);
        }
        assert(table.wf());
        assert(valid_config(descriptors@, interrupt_min, interrupts_seq));
    }
    match find_preferred_task(&table) {
        Some(first) => Some((table, first)),
        None => {
            proof {
                assert forall|k: int| 0 <= k < configured implies !(#[trigger] descriptors@[k]).flags.spec_contains(
                    Flags::BOOT,
                ) by {
                    assert(initial_task(descriptors@[k], k, table.spec_task(k)));
                    if descriptors@[k].flags.spec_contains(Flags::BOOT) {
                        assert(table.spec_task(k).state == TaskState::Ready);
                    }
                }
            }
            None
        },
    }
}

} // verus!

verus! {

/// `after` is `before` with `interrupt` disabled, if the routing table
/// covers it; nothing else changes.
pub open spec fn interrupt_disabled(before: TaskTable, after: TaskTable, interrupt: usize) -> bool {
    let irq = before.spec_interrupts();
    let i = interrupt - irq.spec_min();
    &&& forall|k: int| 0 <= k < NUM_TASKS ==> #[trigger] after.spec_task(k) == before.spec_task(k)
    &&& after.spec_clock() == before.spec_clock()
    &&& after.spec_deadline() == before.spec_deadline()
    &&& after.spec_interrupts().wf()
    &&& after.spec_interrupts().spec_min() == irq.spec_min()
    &&& after.spec_interrupts().spec_descriptors() == irq.spec_descriptors()
    &&& after.spec_interrupts().spec_enabled() == if 0 <= i < irq.spec_descriptors().len() {
        irq.spec_enabled().update(i, false)
    } else {
        irq.spec_enabled()
    }
}

impl TaskTable {
    /// Records that the hardware timer was disarmed (as a timer interrupt
    /// does before the timers are evaluated).
    pub fn clear_timer_deadline(&mut self)
        requires
            old(self).wf(),
        ensures
            final(self).wf(),
            final(self).spec_deadline() == NO_DEADLINE,
            forall|k: int| 0 <= k < NUM_TASKS ==> #[trigger] final(self).spec_task(k) == old(self).spec_task(k),
            final(self).spec_interrupts() == old(self).spec_interrupts(),
            final(self).spec_clock() == old(self).spec_clock(),
    {
        let ghost start = *self;
        self.deadline = NO_DEADLINE;
        proof {
            assert forall|k: int| 0 <= k < NUM_TASKS implies task_wf(#[trigger] self.spec_task(k), k) by {
                assert(self.spec_task(k) == start.spec_task(k));
            }
        }
    }

    /// Disables an interrupt source of the routing table; numbers outside it
    /// are left alone.
    pub fn disable_interrupt(&mut self, interrupt: usize)
        requires
            old(self).wf(),
        ensures
            final(self).wf(),
            interrupt_disabled(*old(self), *final(self), interrupt),
    {
        let ghost start = *self;
        let min = self.interrupts.min();
        if interrupt >= min && interrupt - min < self.interrupts.count() {
            self.interrupts.set_enabled(interrupt, false);
            proof {
                assert forall|k: int| 0 <= k < NUM_TASKS implies task_wf(#[trigger] self.spec_task(k), k) by {
                    assert(self.spec_task(k) == start.spec_task(k));
                }
                assert forall|i: int| 0 <= i < self.interrupts.spec_descriptors().len() implies {
                    let o = #[trigger] self.interrupts.spec_descriptors()[i].spec_task_id();
                    o == UNOWNED || (o as nat) < NUM_TASKS
                } by {
                    assert(self.interrupts.spec_descriptors()[i] == start.interrupts.spec_descriptors()[i]);
                }
            }
        }
    }
}

} // verus!

verus! {

impl TaskTable {
    /// Stores the registers captured from the running task `id` on trap
    /// entry.
    pub fn save_context(&mut self, id: TaskId, context: SavedContext)
        requires
            old(self).wf(),
            old(self).spec_task(id@ as int).state == TaskState::Ready,
        ensures
            final(self).wf(),
            final(self).spec_task(id@ as int) == (TaskView { context, ..old(self).spec_task(id@ as int) }),
            unchanged_except(*old(self), *final(self), id@ as int, id@ as int),
    {
        let ghost start = *self;
        let task = self.task_mut(id);
        *task.context_mut() = context;
        proof {
            assert(task_wf(start.spec_task(id@ as int), id@ as int));
            TaskTable::lemma_wf_update(start, *self, id@ as int, id@ as int);
        }
    }
}

} // verus!
