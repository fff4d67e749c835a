//! Facts about the kernel operations, proved from their contracts.
use vstd::prelude::*;
use crate::abi::{NO_SENDER, SYS_NOTIFICATION_TIMER};
use crate::syscall::{
    call_in_len, call_out_capacity, message_len, message_word, received_len, received_notifications,
    received_sender,
    receive_out_capacity, reply_len, send_in_len,
};
use crate::task::{
    any_in_state, call_delivered, call_done, first_in_priority, interrupt_control_done, interrupt_done,
    legal_transition, notify_done, panicked, posted, receive_done, send_done, set_timer_done,
    timer_evaluated, timers_done, TaskId, TaskState, TaskTable, TaskView, Schedule, NUM_TASKS,
};
use crate::task::InterruptControl;
use crate::time::NO_DEADLINE;

verus! {

/// A receive with no caller waiting and no notification pending blocks:
/// the task stays in Receive and another task must run.
pub proof fn receive_blocks_when_idle(before: TaskTable, after: TaskTable, caller: TaskId, r: Schedule)
    requires
        receive_done(before, after, caller, r),
        !any_in_state(before, TaskState::CallRequest(caller)),
        before.spec_task(caller@ as int).notifications == 0,
    ensures
        r == Schedule::Other,
        after.spec_task(caller@ as int).state == TaskState::Receive,
{
}

/// A call to a task already waiting in Receive completes the rendezvous in
/// one step: the caller waits for the reply, the target is ready and holds
/// the caller's message truncated to the room it offered.
pub proof fn call_to_receiver_delivers(before: TaskTable, after: TaskTable, a: TaskId, b: TaskId, r: Schedule)
    requires
        before.wf(),
        a@ < NUM_TASKS,
        call_done(before, after, a, b, r),
        a != b,
        before.spec_task(b@ as int).state == TaskState::Receive,
    ensures
        r == Schedule::Exactly(b),
        received_sender(after.spec_task(b@ as int).context) as nat == a@,
        received_notifications(after.spec_task(b@ as int).context) == before.spec_task(b@ as int).notifications,
        after.spec_task(b@ as int).notifications == 0,
        after.spec_task(a@ as int).state == TaskState::CallResponse(b),
        after.spec_task(b@ as int).state == TaskState::Ready,
        received_len(after.spec_task(b@ as int).context) == message_len(
            receive_out_capacity(before.spec_task(b@ as int).context),
            call_in_len(before.spec_task(a@ as int).context),
        ),
        forall|i: int|
            0 <= i < received_len(after.spec_task(b@ as int).context) ==> #[trigger] message_word(
                after.spec_task(b@ as int).context,
                i,
            ) == message_word(before.spec_task(a@ as int).context, i),
{
    before.lemma_slots();
}

/// A call lends the caller's priority to a less urgent target.
pub proof fn call_lends_priority(before: TaskTable, after: TaskTable, a: TaskId, b: TaskId, r: Schedule)
    requires
        call_done(before, after, a, b, r),
        a != b,
        before.spec_task(a@ as int).current_priority < before.spec_task(b@ as int).current_priority,
    ensures
        after.spec_task(b@ as int).current_priority == before.spec_task(a@ as int).current_priority,
{
}

/// A reply gives back a lent priority: with no other task waiting in a call
/// on the replier, it returns to its base priority.
pub proof fn reply_restores_base_priority(before: TaskTable, after: TaskTable, b: TaskId, a: TaskId, r: Schedule)
    requires
        send_done(before, after, b, a, r),
        b != a,
        before.spec_task(a@ as int).state == TaskState::CallResponse(b),
        forall|k: int| 0 <= k < NUM_TASKS ==> (#[trigger] before.spec_task(k)).state != TaskState::CallRequest(b),
    ensures
        after.spec_task(b@ as int).current_priority == before.spec_task(b@ as int).descriptor.priority,
{
    lemma_no_callers_base(before, b, NUM_TASKS as int);
}

proof fn lemma_no_callers_base(table: TaskTable, idx: TaskId, n: int)
    requires
        n <= NUM_TASKS,
        forall|k: int| 0 <= k < NUM_TASKS ==> (#[trigger] table.spec_task(k)).state != TaskState::CallRequest(idx),
    ensures
        crate::task::inherited_priority(table, idx, n) == table.spec_task(idx@ as int).descriptor.priority,
    decreases n,
{
    if n > 0 {
        lemma_no_callers_base(table, idx, n - 1);
        assert(table.spec_task(n - 1).state != TaskState::CallRequest(idx));
    }
}

/// The length a reply copies is the smaller of the room the caller offered
/// and the length the replier sent, and exactly that many words arrive.
pub proof fn reply_length_is_min(before: TaskTable, after: TaskTable, b: TaskId, a: TaskId, r: Schedule)
    requires
        send_done(before, after, b, a, r),
        b != a,
        before.spec_task(a@ as int).state == TaskState::CallResponse(b),
    ensures
        reply_len(after.spec_task(a@ as int).context) == message_len(
            call_out_capacity(before.spec_task(a@ as int).context),
            send_in_len(before.spec_task(b@ as int).context),
        ),
        forall|i: int|
            0 <= i < reply_len(after.spec_task(a@ as int).context) ==> #[trigger] message_word(
                after.spec_task(a@ as int).context,
                i,
            ) == message_word(before.spec_task(b@ as int).context, i),
{
}

/// A one-shot timer does not fire before its deadline; at or after it, it
/// posts the timer notification once and is disabled.
pub proof fn one_shot_timer(before: TaskView, after: TaskView, now_ticks: u64)
    requires
        timer_evaluated(before, after, now_ticks),
        before.timer_period is None,
    ensures
        now_ticks < before.timer_deadline ==> after == before,
        now_ticks >= before.timer_deadline ==> {
            &&& after.timer_deadline == NO_DEADLINE
            &&& after.timer_period is None
            &&& if before.state == TaskState::Receive {
                after.state == TaskState::Ready && after.notifications == 0
            } else {
                after.notifications == before.notifications | SYS_NOTIFICATION_TIMER
            }
        },
{
}

/// An expired periodic timer is re-armed one period after the evaluation
/// time, not after the missed deadline, and posts the timer notification.
pub proof fn periodic_timer_rearms_from_now(before: TaskView, after: TaskView, now_ticks: u64, period: u64)
    requires
        timer_evaluated(before, after, now_ticks),
        before.timer_period == Some(period),
        now_ticks >= before.timer_deadline,
    ensures
        after.timer_deadline == now_ticks.wrapping_add(period),
        after.timer_period == Some(period),
        before.state == TaskState::Receive ==> after.state == TaskState::Ready,
        before.state != TaskState::Receive ==> after.notifications == before.notifications
            | SYS_NOTIFICATION_TIMER,
{
}

/// A post that leaves bits pending wakes a receiving task with no sender
/// and no message.
pub proof fn post_wakes_receiver(before: TaskView, after: TaskView, bits: u32, woke: bool)
    requires
        posted(before, after, bits, woke),
        before.state == TaskState::Receive,
        before.notifications | bits != 0,
    ensures
        woke,
        after.state == TaskState::Ready,
        received_sender(after.context) == NO_SENDER,
        received_len(after.context) == 0,
{
}

/// Posts to a task that is not receiving accumulate by bitwise OR.
pub proof fn posts_accumulate(t0: TaskView, t1: TaskView, t2: TaskView, b1: u32, b2: u32, w1: bool, w2: bool)
    requires
        posted(t0, t1, b1, w1),
        posted(t1, t2, b2, w2),
        t0.state != TaskState::Receive,
    ensures
        !w1 && !w2,
        t2.notifications == (t0.notifications | b1) | b2,
        t2.state == t0.state,
{
}

/// `to` is reached from `from` by at most two transitions of the task state
/// machine.
pub open spec fn reachable_in_two(from: TaskState, to: TaskState) -> bool {
    from == to || legal_transition(from, to) || exists|m: TaskState|
        legal_transition(from, m) && #[trigger] legal_transition(m, to)
}

/// Every task's state moved along the state machine.
pub open spec fn states_step_legally(before: TaskTable, after: TaskTable) -> bool {
    forall|k: int|
        0 <= k < NUM_TASKS ==> reachable_in_two(before.spec_task(k).state, #[trigger] after.spec_task(k).state)
}

proof fn lemma_unchanged_steps(before: TaskTable, after: TaskTable, i: int, j: int)
    requires
        forall|k: int|
            0 <= k < NUM_TASKS && k != i && k != j ==> #[trigger] after.spec_task(k).state == before.spec_task(k).state,
        0 <= i < NUM_TASKS ==> reachable_in_two(before.spec_task(i).state, after.spec_task(i).state),
        0 <= j < NUM_TASKS ==> reachable_in_two(before.spec_task(j).state, after.spec_task(j).state),
    ensures
        states_step_legally(before, after),
{
    assert forall|k: int| 0 <= k < NUM_TASKS implies reachable_in_two(
        before.spec_task(k).state,
        #[trigger] after.spec_task(k).state,
    ) by {
        if k != i && k != j {
            assert(after.spec_task(k).state == before.spec_task(k).state);
        }
    }
}

proof fn lemma_panicked_steps(before: TaskTable, after: TaskTable, caller: TaskId, r: Schedule)
    requires
        panicked(before, after, caller, r),
    ensures
        states_step_legally(before, after),
{
    lemma_unchanged_steps(before, after, caller@ as int, caller@ as int);
}

/// A receive by a running task moves every task along the state machine.
pub proof fn receive_steps_legally(before: TaskTable, after: TaskTable, caller: TaskId, r: Schedule)
    requires
        receive_done(before, after, caller, r),
        before.spec_task(caller@ as int).state == TaskState::Ready,
    ensures
        states_step_legally(before, after),
{
    let c = caller@ as int;
    let wanted = TaskState::CallRequest(caller);
    if any_in_state(before, wanted) {
        let k = choose|k: int| first_in_priority(before, k, wanted) && #[trigger] call_delivered(before, after, k, caller);
        assert(legal_transition(before.spec_task(k).state, after.spec_task(k).state));
        lemma_unchanged_steps(before, after, k, c);
    } else {
        assert(legal_transition(TaskState::Ready, TaskState::Receive));
        lemma_unchanged_steps(before, after, c, c);
    }
}

/// A call by a running task moves every task along the state machine.
pub proof fn call_steps_legally(before: TaskTable, after: TaskTable, a: TaskId, b: TaskId, r: Schedule)
    requires
        call_done(before, after, a, b, r),
        before.spec_task(a@ as int).state == TaskState::Ready,
    ensures
        states_step_legally(before, after),
{
    if a == b {
        lemma_panicked_steps(before, after, a, r);
    } else {
        let ca = a@ as int;
        let cb = b@ as int;
        if before.spec_task(cb).state == TaskState::Receive {
            assert(legal_transition(TaskState::Ready, TaskState::CallRequest(b)));
            assert(legal_transition(TaskState::CallRequest(b), TaskState::CallResponse(b)));
        } else {
            assert(legal_transition(TaskState::Ready, TaskState::CallRequest(b)));
        }
        lemma_unchanged_steps(before, after, ca, cb);
    }
}

/// A reply moves every task along the state machine.
pub proof fn send_steps_legally(before: TaskTable, after: TaskTable, a: TaskId, b: TaskId, r: Schedule)
    requires
        send_done(before, after, a, b, r),
    ensures
        states_step_legally(before, after),
{
    if a == b || before.spec_task(b@ as int).state != TaskState::CallResponse(a) {
        lemma_panicked_steps(before, after, a, r);
    } else {
        lemma_unchanged_steps(before, after, a@ as int, b@ as int);
    }
}

/// A notification moves every task along the state machine.
pub proof fn notify_steps_legally(before: TaskTable, after: TaskTable, a: TaskId, b: TaskId, bits: u32, r: Schedule)
    requires
        notify_done(before, after, a, b, bits, r),
    ensures
        states_step_legally(before, after),
{
    if a == b {
        lemma_panicked_steps(before, after, a, r);
    } else {
        lemma_unchanged_steps(before, after, b@ as int, b@ as int);
    }
}

/// A timer request moves every task along the state machine.
pub proof fn set_timer_steps_legally(
    before: TaskTable,
    after: TaskTable,
    caller: TaskId,
    periodic: bool,
    deadline: u32,
    now_ticks: u64,
    r: Schedule,
)
    requires
        set_timer_done(before, after, caller, periodic, deadline, now_ticks, r),
    ensures
        states_step_legally(before, after),
{
    lemma_unchanged_steps(before, after, caller@ as int, caller@ as int);
}

/// An interrupt control request moves every task along the state machine.
pub proof fn interrupt_control_steps_legally(
    before: TaskTable,
    after: TaskTable,
    caller: TaskId,
    interrupt: usize,
    control: InterruptControl,
    r: Schedule,
)
    requires
        interrupt_control_done(before, after, caller, interrupt, control, r),
    ensures
        states_step_legally(before, after),
{
    lemma_unchanged_steps(before, after, caller@ as int, caller@ as int);
}

/// A timer evaluation moves every task along the state machine.
pub proof fn timers_step_legally(before: TaskTable, after: TaskTable, caller: TaskId, now_ticks: u64, r: Schedule)
    requires
        timers_done(before, after, caller, now_ticks, r),
    ensures
        states_step_legally(before, after),
{
    assert forall|k: int| 0 <= k < NUM_TASKS implies reachable_in_two(
        before.spec_task(k).state,
        #[trigger] after.spec_task(k).state,
    ) by {
        assert(timer_evaluated(before.spec_task(k), after.spec_task(k), now_ticks));
    }
}

/// Delivering an interrupt moves every task along the state machine.
pub proof fn interrupt_steps_legally(before: TaskTable, after: TaskTable, caller: TaskId, interrupt: usize, r: Schedule)
    requires
        before.spec_interrupts().spec_lookup(interrupt as int) is Some,
        interrupt_done(before, after, caller, interrupt, r),
    ensures
        states_step_legally(before, after),
{
    let t = before.spec_interrupts().spec_lookup(interrupt as int)->Some_0.spec_task_id() as int;
    lemma_unchanged_steps(before, after, t, t);
}

} // verus!
