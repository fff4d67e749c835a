use kernel::abi::{MAX_MESSAGE_SIZE, NO_SENDER, SYS_NOTIFICATION_TIMER};
use kernel::context::SavedContext;
use kernel::descriptor::{ArchTaskDescriptor, Flags, InterruptDescriptor, TaskDescriptor};
use kernel::syscall::MESSAGE_DATA_START;
use kernel::task::{
    do_call, do_interrupt_control, do_notify, do_panic, do_receive, do_send, do_set_timer,
    evaluate_timers, get_preferred_task, handle_interrupt, task_init, InterruptControl, Schedule,
    TaskId, TaskState, TaskTable, NUM_TASKS,
};
use kernel::time::{us_to_ticks, Clock, NO_DEADLINE};

fn descriptor(priority: u8, boot: bool) -> TaskDescriptor {
    TaskDescriptor {
        init_pc: 0x1000 + priority as u32,
        priority,
        flags: Flags { bits: if boot { Flags::BOOT } else { 0 } },
        arch: ArchTaskDescriptor { pmp_addr: [0; 4], pmp_cfg: 0 },
    }
}

fn clock() -> Clock {
    Clock { us_per_tick: 1 << 32, tick_frequency: 1_000_001 }
}

/// Tasks 0..prios.len() boot with the given priorities; the rest stay down.
fn table(prios: &[u8]) -> TaskTable {
    table_with_interrupts(prios, 16, vec![])
}

fn table_with_interrupts(prios: &[u8], min: usize, interrupts: Vec<InterruptDescriptor>) -> TaskTable {
    let mut descriptors = Vec::new();
    for i in 0..NUM_TASKS {
        if i < prios.len() {
            descriptors.push(descriptor(prios[i], true));
        } else {
            descriptors.push(descriptor(200, false));
        }
    }
    task_init(descriptors, min, interrupts, clock()).unwrap().0
}

fn id(i: u8) -> TaskId {
    TaskId::new(i).unwrap()
}

fn set_args(t: &mut TaskTable, task: u8, a1: u32, a2: u32, data: &[u32]) {
    let mut ctx = *t.get(id(task)).context();
    ctx.sys.regs[1] = a1;
    ctx.sys.regs[2] = a2;
    for (i, w) in data.iter().enumerate() {
        ctx.sys.regs[MESSAGE_DATA_START + i] = *w;
    }
    t.save_context(id(task), ctx);
}

fn call_args(target: u8, in_len: u8, out_capacity: u8) -> u32 {
    (target as u32) | ((in_len as u32) << 16) | ((out_capacity as u32) << 24)
}

fn word(t: &TaskTable, task: u8, i: usize) -> u32 {
    t.get(id(task)).context().sys.regs[MESSAGE_DATA_START + i]
}

fn a1(t: &TaskTable, task: u8) -> u32 {
    t.get(id(task)).context().sys.regs[1]
}

#[test]
fn task_id_is_bounds_checked() {
    assert!(TaskId::new(0).is_some());
    assert!(TaskId::new((NUM_TASKS - 1) as u8).is_some());
    assert!(TaskId::new(NUM_TASKS as u8).is_none());
    assert_eq!(TaskId::new(3).unwrap().as_u8(), 3);
}

#[test]
fn init_starts_boot_tasks_and_picks_most_urgent() {
    let mut descriptors = Vec::new();
    for i in 0..NUM_TASKS {
        descriptors.push(descriptor(50 - i as u8, i < 3));
    }
    let (t, first) = task_init(descriptors, 16, vec![], clock()).unwrap();
    assert_eq!(first.as_u8(), 2);
    assert!(t.get(id(0)).state() == TaskState::Ready);
    assert!(t.get(id(5)).state() == TaskState::Fatal);
    assert_eq!(t.get(id(1)).current_priority(), 49);
    assert_eq!(t.get(id(1)).context().pc, 0x1000 + 49);
    assert_eq!(t.get(id(1)).timer_deadline(), NO_DEADLINE);
    assert_eq!(get_preferred_task(&t).index().as_u8(), 2);
}

#[test]
fn init_refuses_bad_configuration() {
    let single = vec![descriptor(1, true)];
    assert_eq!(task_init(single, 0, vec![], clock()).unwrap().0.configured(), 1);
    let mut none_boot = Vec::new();
    for _ in 0..NUM_TASKS {
        none_boot.push(descriptor(1, false));
    }
    assert!(task_init(none_boot, 0, vec![], clock()).is_none());
    let mut ok = Vec::new();
    for _ in 0..NUM_TASKS {
        ok.push(descriptor(1, true));
    }
    let bad_owner = vec![InterruptDescriptor::new(NUM_TASKS as u8, 1)];
    assert!(task_init(ok, 0, bad_owner, clock()).is_none());
}

#[test]
fn preferred_task_ties_go_to_lower_index() {
    let t = table(&[7, 3, 3, 9]);
    assert_eq!(get_preferred_task(&t).index().as_u8(), 1);
}

#[test]
fn get_pair_mut_gives_two_distinct_tasks() {
    let mut t = table(&[1, 2, 3]);
    let (a, b) = t.get_pair_mut(id(2), id(0));
    assert_eq!(a.current_priority(), 3);
    assert_eq!(b.current_priority(), 1);
    a.reset_notifications();
    b.post(4);
    assert_eq!(t.get(id(0)).notifications(), 4);
    assert_eq!(t.get(id(2)).notifications(), 0);
}

#[test]
fn receive_without_caller_or_notification_blocks() {
    let mut t = table(&[1, 2]);
    let r = do_receive(&mut t, id(1));
    assert!(r == Schedule::Other);
    assert!(t.get(id(1)).state() == TaskState::Receive);
}

#[test]
fn receive_with_pending_notification_returns_at_once() {
    let mut t = table(&[1, 2]);
    t.get_pair_mut(id(1), id(0)).0.post(0x30);
    let r = do_receive(&mut t, id(1));
    assert!(r == Schedule::Same);
    assert!(t.get(id(1)).state() == TaskState::Ready);
    assert_eq!(t.get(id(1)).notifications(), 0);
    assert_eq!(t.get(id(1)).context().sys.regs[2], 0x30);
    assert_eq!(a1(&t, 1) & 0xff, NO_SENDER as u32);
    assert_eq!((a1(&t, 1) >> 16) & 0xff, 0);
}

#[test]
fn call_to_receiving_task_delivers_in_one_step() {
    let mut t = table(&[5, 10]);
    set_args(&mut t, 1, 3, 0, &[]);
    assert!(do_receive(&mut t, id(1)) == Schedule::Other);
    set_args(&mut t, 0, call_args(1, 5, 4), 0, &[11, 22, 33, 44, 55]);
    let r = do_call(&mut t, id(0), id(1));
    assert!(r == Schedule::Exactly(id(1)));
    assert!(t.get(id(0)).state() == TaskState::CallResponse(id(1)));
    assert!(t.get(id(1)).state() == TaskState::Ready);
    assert_eq!(a1(&t, 1) & 0xff, 0);
    assert_eq!((a1(&t, 1) >> 16) & 0xff, 3);
    assert_eq!(word(&t, 1, 0), 11);
    assert_eq!(word(&t, 1, 1), 22);
    assert_eq!(word(&t, 1, 2), 33);
    assert_eq!(word(&t, 1, 3), 0);
}

#[test]
fn receive_takes_most_urgent_waiting_caller() {
    let mut t = table(&[9, 4, 6, 2]);
    set_args(&mut t, 0, call_args(3, 1, 0), 0, &[100]);
    set_args(&mut t, 1, call_args(3, 1, 0), 0, &[200]);
    set_args(&mut t, 2, call_args(3, 1, 0), 0, &[300]);
    assert!(do_call(&mut t, id(0), id(3)) == Schedule::Exactly(id(3)));
    assert!(do_call(&mut t, id(1), id(3)) == Schedule::Exactly(id(3)));
    assert!(do_call(&mut t, id(2), id(3)) == Schedule::Exactly(id(3)));
    set_args(&mut t, 3, 8, 0, &[]);
    assert!(do_receive(&mut t, id(3)) == Schedule::Same);
    assert!(t.get(id(1)).state() == TaskState::CallResponse(id(3)));
    assert!(t.get(id(0)).state() == TaskState::CallRequest(id(3)));
    assert_eq!(word(&t, 3, 0), 200);
    assert_eq!(a1(&t, 3) & 0xff, 1);
}

#[test]
fn call_to_blocked_target_schedules_other() {
    let mut t = table(&[5, 10, 20]);
    set_args(&mut t, 1, call_args(2, 0, 0), 0, &[]);
    assert!(do_call(&mut t, id(1), id(2)) == Schedule::Exactly(id(2)));
    set_args(&mut t, 0, call_args(1, 0, 0), 0, &[]);
    assert!(do_call(&mut t, id(0), id(1)) == Schedule::Other);
    assert_eq!(t.get(id(1)).current_priority(), 5);
    assert_eq!(t.get(id(2)).current_priority(), 5);
}

#[test]
fn priority_inheritance_and_revert() {
    // A = 0 (priority 5), B = 1 (priority 10), C = 2 (priority 20).
    let mut t = table(&[5, 10, 20]);
    set_args(&mut t, 1, call_args(2, 0, 4), 0, &[]);
    assert!(do_call(&mut t, id(1), id(2)) == Schedule::Exactly(id(2)));
    assert_eq!(t.get(id(2)).current_priority(), 10);
    set_args(&mut t, 2, 4, 0, &[]);
    assert!(do_receive(&mut t, id(2)) == Schedule::Same);
    assert!(t.get(id(1)).state() == TaskState::CallResponse(id(2)));
    // B is not ready when A calls it.
    set_args(&mut t, 0, call_args(1, 2, 4), 0, &[7, 8]);
    assert!(do_call(&mut t, id(0), id(1)) == Schedule::Other);
    assert_eq!(t.get(id(1)).current_priority(), 5);
    // C replies to B and drops back to its base priority.
    set_args(&mut t, 2, call_args(1, 0, 0), 0, &[]);
    assert!(do_send(&mut t, id(2), id(1)) == Schedule::Exactly(id(1)));
    assert_eq!(t.get(id(2)).current_priority(), 20);
    // B takes A's call, then replies.
    set_args(&mut t, 1, 4, 0, &[]);
    assert!(do_receive(&mut t, id(1)) == Schedule::Same);
    assert_eq!(word(&t, 1, 1), 8);
    set_args(&mut t, 1, call_args(0, 1, 0), 0, &[99]);
    assert!(do_send(&mut t, id(1), id(0)) == Schedule::Exactly(id(0)));
    assert_eq!(t.get(id(1)).current_priority(), 10);
    assert!(t.get(id(0)).state() == TaskState::Ready);
    assert_eq!(a1(&t, 0) & 0xff, 1);
    assert_eq!(word(&t, 0, 0), 99);
}

#[test]
fn reply_copies_min_of_capacity_and_length() {
    let mut t = table(&[5, 10]);
    set_args(&mut t, 1, 10, 0, &[]);
    do_receive(&mut t, id(1));
    set_args(&mut t, 0, call_args(1, 1, 2), 0, &[1]);
    do_call(&mut t, id(0), id(1));
    set_args(&mut t, 1, call_args(0, 6, 0), 0, &[61, 62, 63, 64, 65, 66]);
    assert!(do_send(&mut t, id(1), id(0)) == Schedule::Exactly(id(0)));
    assert_eq!(a1(&t, 0) & 0xff, 2);
    assert_eq!(word(&t, 0, 0), 61);
    assert_eq!(word(&t, 0, 1), 62);
    assert_eq!(word(&t, 0, 2), 0);
}

#[test]
fn reply_with_full_message_and_room() {
    let mut t = table(&[5, 10]);
    set_args(&mut t, 1, 0, 0, &[]);
    do_receive(&mut t, id(1));
    set_args(&mut t, 0, call_args(1, 0, 255), 0, &[]);
    do_call(&mut t, id(0), id(1));
    let data: Vec<u32> = (1..=MAX_MESSAGE_SIZE as u32).collect();
    set_args(&mut t, 1, call_args(0, MAX_MESSAGE_SIZE as u8, 0), 0, &data);
    do_send(&mut t, id(1), id(0));
    assert_eq!(a1(&t, 0) & 0xff, MAX_MESSAGE_SIZE as u32);
    assert_eq!(word(&t, 0, MAX_MESSAGE_SIZE - 1), MAX_MESSAGE_SIZE as u32);
}

#[test]
fn reply_keeps_caller_running_unless_target_more_urgent() {
    let mut t = table(&[10, 5]);
    set_args(&mut t, 1, 0, 0, &[]);
    do_receive(&mut t, id(1));
    set_args(&mut t, 0, call_args(1, 0, 0), 0, &[]);
    do_call(&mut t, id(0), id(1));
    set_args(&mut t, 1, call_args(0, 0, 0), 0, &[]);
    assert!(do_send(&mut t, id(1), id(0)) == Schedule::Same);
}

#[test]
fn send_without_pending_call_is_fatal() {
    let mut t = table(&[5, 10]);
    let r = do_send(&mut t, id(0), id(1));
    assert!(r == Schedule::Other);
    assert!(t.get(id(0)).state() == TaskState::Fatal);
    assert!(t.get(id(1)).state() == TaskState::Ready);
}

#[test]
fn call_to_self_is_fatal() {
    let mut t = table(&[5, 10]);
    assert!(do_call(&mut t, id(1), id(1)) == Schedule::Other);
    assert!(t.get(id(1)).state() == TaskState::Fatal);
}

#[test]
fn notify_to_self_is_fatal() {
    let mut t = table(&[5]);
    assert!(do_notify(&mut t, id(0), id(0), 1) == Schedule::Other);
    assert!(t.get(id(0)).state() == TaskState::Fatal);
}

#[test]
fn panic_stops_the_task() {
    let mut t = table(&[5]);
    assert!(do_panic(&mut t, id(0)) == Schedule::Other);
    assert!(t.get(id(0)).state() == TaskState::Fatal);
}

#[test]
fn reset_brings_back_a_fatal_task() {
    let mut t = table(&[5, 7]);
    do_panic(&mut t, id(1));
    t.reset_task(id(1));
    assert!(t.get(id(1)).state() == TaskState::Ready);
    assert_eq!(t.get(id(1)).current_priority(), 7);
    assert_eq!(t.get(id(1)).context().pc, 0x1000 + 7);
}

#[test]
fn notify_wakes_receiver_and_posts_accumulate() {
    let mut t = table(&[5, 10, 2]);
    assert!(do_notify(&mut t, id(0), id(1), 0x1) == Schedule::Same);
    assert!(do_notify(&mut t, id(0), id(1), 0x4) == Schedule::Same);
    assert_eq!(t.get(id(1)).notifications(), 0x5);
    assert!(t.get(id(1)).state() == TaskState::Ready);
    assert!(do_receive(&mut t, id(1)) == Schedule::Same);
    assert_eq!(t.get(id(1)).context().sys.regs[2], 0x5);
    assert_eq!(a1(&t, 1) & 0xff, NO_SENDER as u32);
    // Task 2 (priority 2) waits; a notification from task 0 wakes it and it
    // is more urgent.
    do_receive(&mut t, id(2));
    assert!(do_notify(&mut t, id(0), id(2), 0x8) == Schedule::Exactly(id(2)));
    assert!(t.get(id(2)).state() == TaskState::Ready);
    assert_eq!(t.get(id(2)).context().sys.regs[2], 0x8);
    assert_eq!((a1(&t, 2) >> 16) & 0xff, 0);
}

#[test]
fn one_shot_timer_fires_once_at_deadline() {
    let mut t = table(&[5, 10]);
    assert!(do_set_timer(&mut t, id(1), false, 1000, 0) == Schedule::Same);
    assert_eq!(t.get(id(1)).timer_deadline(), 1000);
    assert_eq!(t.deadline(), 1000);
    do_receive(&mut t, id(1));
    assert!(evaluate_timers(&mut t, id(0), 999) == Schedule::Same);
    assert!(t.get(id(1)).state() == TaskState::Receive);
    assert!(evaluate_timers(&mut t, id(0), 1000) == Schedule::Same);
    assert!(t.get(id(1)).state() == TaskState::Ready);
    assert_eq!(t.get(id(1)).context().sys.regs[2], SYS_NOTIFICATION_TIMER);
    assert_eq!(t.get(id(1)).timer_deadline(), NO_DEADLINE);
    assert!(t.get(id(1)).timer_period().is_none());
}

#[test]
fn periodic_timer_rearms_from_evaluation_time() {
    let mut t = table(&[5, 1]);
    assert!(do_set_timer(&mut t, id(1), true, 100, 50) == Schedule::Same);
    assert_eq!(t.get(id(1)).timer_deadline(), 150);
    assert_eq!(t.get(id(1)).timer_period(), Some(100));
    do_receive(&mut t, id(1));
    assert!(evaluate_timers(&mut t, id(0), 170) == Schedule::Exactly(id(1)));
    assert_eq!(t.get(id(1)).timer_deadline(), 270);
    assert_eq!(t.get(id(1)).notifications(), 0);
    assert!(evaluate_timers(&mut t, id(0), 300) == Schedule::Same);
    assert_eq!(t.get(id(1)).timer_deadline(), 400);
    assert_eq!(t.get(id(1)).notifications(), SYS_NOTIFICATION_TIMER);
}

#[test]
fn timer_cancel_and_zero_period() {
    let mut t = table(&[5]);
    do_set_timer(&mut t, id(0), false, 10, 0);
    assert!(do_set_timer(&mut t, id(0), false, 0, 0) == Schedule::Same);
    assert_eq!(t.get(id(0)).timer_deadline(), NO_DEADLINE);
    assert!(do_set_timer(&mut t, id(0), true, 0, 0) == Schedule::Other);
    assert!(t.get(id(0)).state() == TaskState::Fatal);
}

#[test]
fn hardware_deadline_soonest_wins() {
    let mut t = table(&[5, 6]);
    do_set_timer(&mut t, id(0), false, 500, 0);
    do_set_timer(&mut t, id(1), false, 800, 0);
    assert_eq!(t.deadline(), 500);
    do_set_timer(&mut t, id(1), false, 200, 0);
    assert_eq!(t.deadline(), 200);
}

#[test]
fn tick_conversion_rounds_down() {
    let c = Clock { us_per_tick: 1 << 32, tick_frequency: 1_000_000 };
    assert_eq!(us_to_ticks(1000, c), 999);
    assert_eq!(us_to_ticks(1000, clock()), 1000);
}

#[test]
fn interrupt_routing_and_control() {
    let irqs = vec![InterruptDescriptor::new(1, 0x2), InterruptDescriptor::none(), InterruptDescriptor::new(0, 0x10)];
    let mut t = table_with_interrupts(&[5, 2], 20, irqs);
    assert!(do_interrupt_control(&mut t, id(1), 20, InterruptControl::Enable) == Schedule::Same);
    assert!(t.interrupts().is_enabled(20));
    do_receive(&mut t, id(1));
    assert!(handle_interrupt(&mut t, id(0), 20) == Schedule::Exactly(id(1)));
    assert!(t.get(id(1)).state() == TaskState::Ready);
    assert_eq!(t.get(id(1)).context().sys.regs[2], 0x2);
    assert!(do_interrupt_control(&mut t, id(1), 20, InterruptControl::Disable) == Schedule::Same);
    assert!(!t.interrupts().is_enabled(20));
    assert!(do_interrupt_control(&mut t, id(0), 20, InterruptControl::Complete) == Schedule::Other);
    assert!(t.get(id(0)).state() == TaskState::Fatal);
}

#[test]
fn interrupt_control_on_unowned_interrupt_is_fatal() {
    let irqs = vec![InterruptDescriptor::none()];
    let mut t = table_with_interrupts(&[5, 2], 20, irqs);
    assert!(do_interrupt_control(&mut t, id(1), 20, InterruptControl::Enable) == Schedule::Other);
    assert!(t.get(id(1)).state() == TaskState::Fatal);
    assert!(do_interrupt_control(&mut t, id(0), 21, InterruptControl::Enable) == Schedule::Other);
}

#[test]
fn interrupt_to_less_urgent_owner_keeps_current() {
    let irqs = vec![InterruptDescriptor::new(1, 0x2)];
    let mut t = table_with_interrupts(&[5, 9], 20, irqs);
    do_receive(&mut t, id(1));
    assert!(handle_interrupt(&mut t, id(0), 20) == Schedule::Same);
    assert!(t.get(id(1)).state() == TaskState::Ready);
}

#[test]
fn reset_disables_owned_interrupts() {
    let irqs = vec![InterruptDescriptor::new(1, 0x2), InterruptDescriptor::new(0, 0x1)];
    let mut t = table_with_interrupts(&[5, 9], 20, irqs);
    do_interrupt_control(&mut t, id(1), 20, InterruptControl::Enable);
    do_interrupt_control(&mut t, id(0), 21, InterruptControl::Enable);
    t.reset_task(id(1));
    assert!(!t.interrupts().is_enabled(20));
    assert!(t.interrupts().is_enabled(21));
}

#[test]
fn context_save_sets_registers() {
    let mut t = table(&[5]);
    let mut c = SavedContext::zeroed();
    c.sys.regs[4] = 77;
    c.sp = 0x2000;
    t.save_context(id(0), c);
    assert_eq!(t.get(id(0)).context().sys.regs[4], 77);
    assert_eq!(t.get(id(0)).context().sp, 0x2000);
}
