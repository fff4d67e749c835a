//! Layout of system call arguments and results in a task's register window,
//! and the decoding of each system call into a kernel operation.
use vstd::prelude::*;
use crate::abi::{MAX_MESSAGE_SIZE, NO_SENDER};
use crate::context::{byte_of, SavedContext, SYS_REGISTER_COUNT};
use crate::abi::SysCallId;
use crate::task::{
    call_done, do_call, do_interrupt_control, do_notify, do_panic, do_receive, do_send,
    do_set_timer, interrupt_control_done, notify_done, panicked, receive_done, receive_result,
    reply_result, send_done, set_timer_done, unchanged_except, InterruptControl, Task, TaskId,
    TaskState, TaskTable, TaskView, Schedule,
};

verus! {

/// First register of the message payload (a3): payload words follow in
/// consecutive registers.
pub const MESSAGE_DATA_START: usize = 3;

/// The system call number (a0).
pub open spec fn spec_sys_id(c: SavedContext) -> u32 {
    c.sys.regs@[0]
}

/// First argument word (a1).
pub open spec fn arg0(c: SavedContext) -> u32 {
    c.sys.regs@[1]
}

/// Second argument word (a2).
pub open spec fn arg1(c: SavedContext) -> u32 {
    c.sys.regs@[2]
}

/// Receive: room, in words, that the receiver offers for a message.
pub open spec fn receive_out_capacity(c: SavedContext) -> u8 {
    byte_of(arg0(c), 0)
}

/// Call: the target task.
pub open spec fn call_target(c: SavedContext) -> u8 {
    byte_of(arg0(c), 0)
}

/// Call: length, in words, of the outgoing message.
pub open spec fn call_in_len(c: SavedContext) -> u8 {
    byte_of(arg0(c), 16)
}

/// Call: room, in words, that the caller offers for the reply.
pub open spec fn call_out_capacity(c: SavedContext) -> u8 {
    byte_of(arg0(c), 24)
}

/// Send: the task being replied to.
pub open spec fn send_target(c: SavedContext) -> u8 {
    byte_of(arg0(c), 0)
}

/// Send: length, in words, of the reply.
pub open spec fn send_in_len(c: SavedContext) -> u8 {
    byte_of(arg0(c), 16)
}

/// Word `i` of the message payload.
pub open spec fn message_word(c: SavedContext, i: int) -> u32 {
    c.sys.regs@[MESSAGE_DATA_START + i]
}

/// The number of words a rendezvous copies.
pub open spec fn message_len(out_capacity: u8, in_len: u8) -> u8 {
    if out_capacity < in_len {
        out_capacity
    } else {
        in_len
    }
}

/// Receive result: who sent (NO_SENDER for a notification wake).
pub open spec fn received_sender(c: SavedContext) -> u8 {
    byte_of(arg0(c), 0)
}

/// Receive result: the message length.
pub open spec fn received_len(c: SavedContext) -> u8 {
    byte_of(arg0(c), 16)
}

/// Receive result: the notifications that were pending.
pub open spec fn received_notifications(c: SavedContext) -> u32 {
    arg1(c)
}

/// Call result: the reply length.
pub open spec fn reply_len(c: SavedContext) -> u8 {
    byte_of(arg0(c), 0)
}

/// `after` holds `len` payload words copied from `src`, and every register
/// outside the result fields (a1, a2 and the first `len` payload words) is
/// as in `before`.
pub open spec fn payload_copied(
    before: SavedContext,
    after: SavedContext,
    src: SavedContext,
    len: int,
    header_words: int,
) -> bool {
    &&& forall|i: int| 0 <= i < len ==> #[trigger] message_word(after, i) == message_word(src, i)
    &&& forall|i: int|
        0 <= i < SYS_REGISTER_COUNT && !(1 <= i < 1 + header_words) && !(MESSAGE_DATA_START <= i
            < MESSAGE_DATA_START + len) ==> after.sys.regs@[i] == before.sys.regs@[i]
    &&& after.pc == before.pc
    &&& after.sp == before.sp
    &&& after.s0 == before.s0
    &&& after.s1 == before.s1
    &&& after.gp == before.gp
    &&& after.tp == before.tp
}

/// Reads byte `shift / 8` of a register word.
pub fn read_byte(word: u32, shift: u32) -> (r: u8)
    requires
        shift < 32,
    ensures
        r == byte_of(word, shift),
{
    ((word >> shift) & 0xff) as u8
}

/// Smaller of the two lengths.
pub fn min_len(out_capacity: u8, in_len: u8) -> (r: u8)
    ensures
        r == message_len(out_capacity, in_len),
{
    if out_capacity < in_len {
        out_capacity
    } else {
        in_len
    }
}

proof fn lemma_pack_bytes(lo: u8, hi: u8)
    ensures
        byte_of((lo as u32) | ((hi as u32) << 16u32), 0) == lo,
        byte_of((lo as u32) | ((hi as u32) << 16u32), 16) == hi,
{
    assert(((((lo as u32) | ((hi as u32) << 16u32)) >> 0u32) & 0xffu32) as u8 == lo) by (bit_vector);
    assert(((((lo as u32) | ((hi as u32) << 16u32)) >> 16u32) & 0xffu32) as u8 == hi) by (bit_vector);
}

proof fn lemma_low_byte(lo: u8)
    ensures
        byte_of(lo as u32, 0) == lo,
{
    assert((((lo as u32) >> 0u32) & 0xffu32) as u8 == lo) by (bit_vector);
}

/// Copies `len` payload words from `src` into `dst`.
fn copy_payload(dst: &mut SavedContext, src: &SavedContext, len: usize)
    requires
        len <= MAX_MESSAGE_SIZE,
    ensures
        forall|i: int| 0 <= i < len ==> #[trigger] message_word(*final(dst), i) == message_word(*src, i),
        forall|i: int|
            0 <= i < SYS_REGISTER_COUNT && !(MESSAGE_DATA_START <= i < MESSAGE_DATA_START + len)
                ==> final(dst).sys.regs@[i] == old(dst).sys.regs@[i],
        final(dst).pc == old(dst).pc,
        final(dst).sp == old(dst).sp,
        final(dst).s0 == old(dst).s0,
        final(dst).s1 == old(dst).s1,
        final(dst).gp == old(dst).gp,
        final(dst).tp == old(dst).tp,
{
    let mut i: usize = 0;
    while i < len
        invariant
            i <= len,
            len <= MAX_MESSAGE_SIZE,
            forall|k: int| 0 <= k < i ==> #[trigger] message_word(*dst, k) == message_word(*src, k),
            forall|k: int|
                0 <= k < SYS_REGISTER_COUNT && !(MESSAGE_DATA_START <= k < MESSAGE_DATA_START + i)
                    ==> dst.sys.regs@[k] == old(dst).sys.regs@[k],
            dst.pc == old(dst).pc,
            dst.sp == old(dst).sp,
            dst.s0 == old(dst).s0,
            dst.s1 == old(dst).s1,
            dst.gp == old(dst).gp,
            dst.tp == old(dst).tp,
        decreases len - i,
    {
        let ghost prev = *dst;
        dst.sys.regs[MESSAGE_DATA_START + i] = src.sys.regs[MESSAGE_DATA_START + i];
        assert forall|k: int| 0 <= k < i + 1 implies #[trigger] message_word(*dst, k) == message_word(
            *src,
            k,
        ) by {
            if k < i {
                assert(message_word(prev, k) == message_word(*src, k));
            }
        }
        i = i + 1;
    }
}

/// Writes a receive result: the sender, the length, the notifications and
/// the payload taken from the caller's call arguments. With no caller the
/// sender is NO_SENDER and the length zero.
pub fn write_receive_result(dst: &mut SavedContext, notifications: u32, caller: Option<(u8, &SavedContext)>)
    requires
        caller is Some ==> call_in_len(*caller->Some_0.1) <= MAX_MESSAGE_SIZE,
    ensures
        received_notifications(*final(dst)) == notifications,
        match caller {
            Some((sender, src)) => {
                let len = message_len(receive_out_capacity(*old(dst)), call_in_len(*src));
                &&& received_sender(*final(dst)) == sender
                &&& received_len(*final(dst)) == len
                &&& payload_copied(*old(dst), *final(dst), *src, len as int, 2)
            },
            None => {
                &&& received_sender(*final(dst)) == NO_SENDER
                &&& received_len(*final(dst)) == 0
                &&& payload_copied(*old(dst), *final(dst), *old(dst), 0, 2)
            },
        },
{
    let out_capacity = read_byte(dst.sys.regs[1], 0);
    match caller {
        Some((sender, src)) => {
            let in_len = read_byte(src.sys.regs[1], 16);
            let len = min_len(out_capacity, in_len);
            copy_payload(dst, src, len as usize);
            let ghost copied = *dst;
            dst.sys.regs[1] = (sender as u32) | ((len as u32) << 16u32);
            dst.sys.regs[2] = notifications;
            proof {
                lemma_pack_bytes(sender, len);
                assert forall|i: int| 0 <= i < len implies #[trigger] message_word(*dst, i)
                    == message_word(*src, i) by {
                    assert(message_word(copied, i) == message_word(*src, i));
                }
            }
        },
        None => {
            dst.sys.regs[1] = (NO_SENDER as u32) | ((0u8 as u32) << 16u32);
            dst.sys.regs[2] = notifications;
            proof {
                lemma_pack_bytes(NO_SENDER, 0);
            }
        },
    }
}

/// Writes a call result into the caller's registers: the reply length,
/// bounded by the room the caller offered, and the reply payload taken from
/// the replier's send arguments.
pub fn write_call_result(dst: &mut SavedContext, src: &SavedContext)
    requires
        send_in_len(*src) <= MAX_MESSAGE_SIZE,
    ensures
        reply_len(*final(dst)) == message_len(call_out_capacity(*old(dst)), send_in_len(*src)),
        payload_copied(
            *old(dst),
            *final(dst),
            *src,
            message_len(call_out_capacity(*old(dst)), send_in_len(*src)) as int,
            1,
        ),
{
    let out_capacity = read_byte(dst.sys.regs[1], 24);
    let in_len = read_byte(src.sys.regs[1], 16);
    let len = min_len(out_capacity, in_len);
    copy_payload(dst, src, len as usize);
    let ghost copied = *dst;
    dst.sys.regs[1] = len as u32;
    proof {
        lemma_low_byte(len);
        assert forall|i: int| 0 <= i < len implies #[trigger] message_word(*dst, i) == message_word(
            *src,
            i,
        ) by {
            assert(message_word(copied, i) == message_word(*src, i));
        }
    }
}

} // verus!

verus! {

/// Completes a receive for `target`: hands it its pending notifications
/// (clearing them) and, with a caller, the caller's id and message.
pub fn set_receive_result(target: &mut Task, caller: Option<&Task>)
    requires
        caller is Some ==> call_in_len(caller->Some_0@.context) <= MAX_MESSAGE_SIZE,
    ensures
        final(target)@.state == old(target)@.state,
        final(target)@.current_priority == old(target)@.current_priority,
        receive_result(
            old(target)@,
            final(target)@,
            match caller {
                Some(c) => Some((c@.index, c@.context)),
                None => None,
            },
        ),
{
    let notifications = target.notifications();
    target.reset_notifications();
    let sender = match caller {
        Some(c) => Some((c.index_byte(), c.context())),
        None => None,
    };
    write_receive_result(target.context_mut(), notifications, sender);
}

/// Completes a call for `target`: the reply of `caller` goes into its
/// registers, truncated to the room it offered.
pub fn set_call_result(target: &mut Task, caller: &Task)
    requires
        send_in_len(caller@.context) <= MAX_MESSAGE_SIZE,
    ensures
        final(target)@.state == old(target)@.state,
        final(target)@.current_priority == old(target)@.current_priority,
        reply_result(old(target)@, final(target)@, caller@.context),
{
    write_call_result(target.context_mut(), caller.context());
}

} // verus!

verus! {

/// Notify: the target task.
pub open spec fn notify_target(c: SavedContext) -> u8 {
    byte_of(arg0(c), 0)
}

/// Set timer: whether the timer is periodic.
pub open spec fn timer_periodic(c: SavedContext) -> bool {
    byte_of(arg0(c), 0) > 0
}

/// `after` is `before` with the program counter of `caller` stepped past
/// its system call instruction.
pub open spec fn pc_advanced(before: TaskTable, after: TaskTable, caller: TaskId) -> bool {
    let t = before.spec_task(caller@ as int);
    &&& after.spec_task(caller@ as int) == (TaskView {
        context: SavedContext { pc: t.context.pc.wrapping_add(4), ..t.context },
        ..t
    })
    &&& unchanged_except(before, after, caller@ as int, caller@ as int)
}

/// What the system call held in the registers of `caller` does, from the
/// table `before` in which its program counter has already moved on.
pub open spec fn dispatched(before: TaskTable, after: TaskTable, caller: TaskId, now_ticks: u64, r: Schedule) -> bool {
    let c = before.spec_task(caller@ as int).context;
    match SysCallId::spec_from_raw(c.sys.regs@[0]) {
        Some(SysCallId::Receive) => receive_done(before, after, caller, r),
        Some(SysCallId::Send) => if (send_target(c) as nat) < before.spec_configured() && send_in_len(c) <= MAX_MESSAGE_SIZE {
            exists|t: TaskId| t@ == send_target(c) as nat && #[trigger] send_done(before, after, caller, t, r)
        } else {
            panicked(before, after, caller, r)
        },
        Some(SysCallId::Call) => if (call_target(c) as nat) < before.spec_configured() && call_in_len(c) <= MAX_MESSAGE_SIZE {
            exists|t: TaskId| t@ == call_target(c) as nat && #[trigger] call_done(before, after, caller, t, r)
        } else {
            panicked(before, after, caller, r)
        },
        Some(SysCallId::Notify) => if (notify_target(c) as nat) < before.spec_configured() {
            exists|t: TaskId|
                t@ == notify_target(c) as nat && #[trigger] notify_done(before, after, caller, t, arg1(c), r)
        } else {
            panicked(before, after, caller, r)
        },
        Some(SysCallId::SetTimer) => set_timer_done(before, after, caller, timer_periodic(c), arg1(c), now_ticks, r),
        Some(SysCallId::InterruptControl) => match InterruptControl::spec_from_raw(arg1(c)) {
            Ok(control) => interrupt_control_done(before, after, caller, arg0(c) as usize, control, r),
            Err(_) => panicked(before, after, caller, r),
        },
        _ => panicked(before, after, caller, r),
    }
}

/// Stops the calling task.
fn do_sys_panic(table: &mut TaskTable, caller_idx: TaskId) -> (r: Schedule)
    requires
        old(table).wf(),
    ensures
        final(table).wf(),
        panicked(*old(table), *final(table), caller_idx, r),
{
    do_panic(table, caller_idx)
}

/// Waits for a message or a notification.
fn do_sys_receive(table: &mut TaskTable, caller_idx: TaskId) -> (r: Schedule)
    requires
        old(table).wf(),
        old(table).spec_task(caller_idx@ as int).state == TaskState::Ready,
    ensures
        final(table).wf(),
        receive_done(*old(table), *final(table), caller_idx, r),
{
    do_receive(table, caller_idx)
}

/// Replies to the task named in the arguments.
fn do_sys_send(table: &mut TaskTable, caller_idx: TaskId) -> (r: Schedule)
    requires
        old(table).wf(),
    ensures
        final(table).wf(),
        dispatched_send(*old(table), *final(table), caller_idx, r),
{
    let context = table.get(caller_idx).context();
    let target = read_byte(context.sys.regs[1], 0);
    let in_len = read_byte(context.sys.regs[1], 16);
    match table.task_id(target) {
        Some(target_idx) => {
            if in_len as usize > MAX_MESSAGE_SIZE {
                return do_panic(table, caller_idx);
            }
            do_send(table, caller_idx, target_idx)
        },
        None => do_panic(table, caller_idx),
    }
}

/// The send branch of `dispatched`.
pub open spec fn dispatched_send(before: TaskTable, after: TaskTable, caller: TaskId, r: Schedule) -> bool {
    let c = before.spec_task(caller@ as int).context;
    if (send_target(c) as nat) < before.spec_configured() && send_in_len(c) <= MAX_MESSAGE_SIZE {
        exists|t: TaskId| t@ == send_target(c) as nat && #[trigger] send_done(before, after, caller, t, r)
    } else {
        panicked(before, after, caller, r)
    }
}

/// The call branch of `dispatched`.
pub open spec fn dispatched_call(before: TaskTable, after: TaskTable, caller: TaskId, r: Schedule) -> bool {
    let c = before.spec_task(caller@ as int).context;
    if (call_target(c) as nat) < before.spec_configured() && call_in_len(c) <= MAX_MESSAGE_SIZE {
        exists|t: TaskId| t@ == call_target(c) as nat && #[trigger] call_done(before, after, caller, t, r)
    } else {
        panicked(before, after, caller, r)
    }
}

/// The notify branch of `dispatched`.
pub open spec fn dispatched_notify(before: TaskTable, after: TaskTable, caller: TaskId, r: Schedule) -> bool {
    let c = before.spec_task(caller@ as int).context;
    if (notify_target(c) as nat) < before.spec_configured() {
        exists|t: TaskId| t@ == notify_target(c) as nat && #[trigger] notify_done(before, after, caller, t, arg1(c), r)
    } else {
        panicked(before, after, caller, r)
    }
}

/// The interrupt control branch of `dispatched`.
pub open spec fn dispatched_interrupt_control(before: TaskTable, after: TaskTable, caller: TaskId, r: Schedule) -> bool {
    let c = before.spec_task(caller@ as int).context;
    match InterruptControl::spec_from_raw(arg1(c)) {
        Ok(control) => interrupt_control_done(before, after, caller, arg0(c) as usize, control, r),
        Err(_) => panicked(before, after, caller, r),
    }
}

/// Calls the task named in the arguments.
fn do_sys_call(table: &mut TaskTable, caller_idx: TaskId) -> (r: Schedule)
    requires
        old(table).wf(),
        old(table).spec_task(caller_idx@ as int).state == TaskState::Ready,
    ensures
        final(table).wf(),
        dispatched_call(*old(table), *final(table), caller_idx, r),
{
    let context = table.get(caller_idx).context();
    let target = read_byte(context.sys.regs[1], 0);
    let in_len = read_byte(context.sys.regs[1], 16);
    match table.task_id(target) {
        Some(target_idx) => {
            if in_len as usize > MAX_MESSAGE_SIZE {
                return do_panic(table, caller_idx);
            }
            do_call(table, caller_idx, target_idx)
        },
        None => do_panic(table, caller_idx),
    }
}

/// Notifies the task named in the arguments.
fn do_sys_notify(table: &mut TaskTable, caller_idx: TaskId) -> (r: Schedule)
    requires
        old(table).wf(),
    ensures
        final(table).wf(),
        dispatched_notify(*old(table), *final(table), caller_idx, r),
{
    let context = table.get(caller_idx).context();
    let target = read_byte(context.sys.regs[1], 0);
    let notifications = context.sys.regs[2];
    let ghost start = *table;
    match table.task_id(target) {
        Some(target_idx) => {
            let r = do_notify(table, caller_idx, target_idx, notifications);
            proof {
                let c = start.spec_task(caller_idx@ as int).context;
                assert(notifications == arg1(c));
                assert(notify_done(start, *table, caller_idx, target_idx, arg1(c), r));
            }
            r
        },
        None => do_panic(table, caller_idx),
    }
}

/// Sets the caller's timer from the arguments.
fn do_sys_set_timer(table: &mut TaskTable, caller_idx: TaskId, now_ticks: u64) -> (r: Schedule)
    requires
        old(table).wf(),
    ensures
        final(table).wf(),
        ({
            let c = old(table).spec_task(caller_idx@ as int).context;
            set_timer_done(*old(table), *final(table), caller_idx, timer_periodic(c), arg1(c), now_ticks, r)
        }),
{
    let context = table.get(caller_idx).context();
    let periodic = read_byte(context.sys.regs[1], 0) > 0;
    let deadline = context.sys.regs[2];
    do_set_timer(table, caller_idx, periodic, deadline, now_ticks)
}

/// Applies an interrupt control operation from the arguments.
fn do_sys_interrupt_control(table: &mut TaskTable, caller_idx: TaskId) -> (r: Schedule)
    requires
        old(table).wf(),
    ensures
        final(table).wf(),
        dispatched_interrupt_control(*old(table), *final(table), caller_idx, r),
{
    let context = table.get(caller_idx).context();
    let interrupt = context.sys.regs[1] as usize;
    match InterruptControl::from_raw(context.sys.regs[2]) {
        Ok(control) => do_interrupt_control(table, caller_idx, interrupt, control),
        Err(_) => do_sys_panic(table, caller_idx),
    }
}

/// Handles a system call made by the running task `caller_idx` at tick
/// `now_ticks`: moves its program counter past the call instruction, then
/// decodes and performs the call. An unknown call stops the caller.
pub fn handle_syscall(table: &mut TaskTable, caller_idx: TaskId, now_ticks: u64) -> (r: Schedule)
    requires
        old(table).wf(),
        old(table).spec_task(caller_idx@ as int).state == TaskState::Ready,
    ensures
        final(table).wf(),
        exists|mid: TaskTable|
            pc_advanced(*old(table), mid, caller_idx) && #[trigger] dispatched(mid, *final(table), caller_idx, now_ticks, r),
{
    table.advance_pc(caller_idx);
    let ghost mid = *table;
    let id = table.get(caller_idx).context().sys_registers().id();
    let r = match SysCallId::from_raw(id) {
        Some(SysCallId::Panic) => do_sys_panic(table, caller_idx),
        Some(SysCallId::Receive) => do_sys_receive(table, caller_idx),
        Some(SysCallId::Send) => do_sys_send(table, caller_idx),
        Some(SysCallId::Call) => do_sys_call(table, caller_idx),
        Some(SysCallId::Notify) => do_sys_notify(table, caller_idx),
        Some(SysCallId::SetTimer) => do_sys_set_timer(table, caller_idx, now_ticks),
        Some(SysCallId::InterruptControl) => do_sys_interrupt_control(table, caller_idx),
        None => do_sys_panic(table, caller_idx),
    };
    proof {
        assert(dispatched(mid, *table, caller_idx, now_ticks, r));
    }
    r
}

} // verus!
