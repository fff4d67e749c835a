use kernel::abi::{SysCallId, SYS_NOTIFICATION_TIMER};
use kernel::context::{SavedContext, SysRegisters};
use kernel::descriptor::{ArchTaskDescriptor, Flags, InterruptDescriptor, TaskDescriptor, UNOWNED};
use kernel::interrupt::{interrupt_descriptor_iter, InterruptTable};
use kernel::syscall::{min_len, read_byte, handle_syscall, MESSAGE_DATA_START};
use kernel::task::{
    InterruptControl, InvalidInterruptControl, Schedule, Task, TaskId, TaskState, TaskTable, task_init, NUM_TASKS,
};
use kernel::time::{handle_timer_expiration, ticks_to_us, u64_mul_high, update_deadline, us_to_ticks, Clock, NO_DEADLINE};
use kernel::trap::{
    apply_memory_protection, classify, handle_claimed_interrupts, handle_trap, is_exception, is_interrupt, resolve_schedule, Family,
    RestoreContext, TrapCause, TrapOutcome,
};
use kernel::usbfs::{base_ctrl, ep_ctrl_h, int_st, rx_len};
use kernel::wch_pfic::{
    clear_software_interrupt, interrupt_control, reset_interrupt, set_software_interrupt, PficRegister, PficWrite,
};

fn clock() -> Clock {
    Clock { us_per_tick: 1 << 32, tick_frequency: 1_000_001 }
}

fn descriptor(priority: u8, boot: bool) -> TaskDescriptor {
    TaskDescriptor {
        init_pc: 0x100 * (priority as u32 + 1),
        priority,
        flags: Flags { bits: if boot { Flags::BOOT } else { 0 } },
        arch: ArchTaskDescriptor { pmp_addr: [1, 2, 3, priority as u32], pmp_cfg: 0x1f },
    }
}

fn table(prios: &[u8], interrupts: Vec<InterruptDescriptor>) -> TaskTable {
    let mut descriptors = Vec::new();
    for i in 0..NUM_TASKS {
        if i < prios.len() {
            descriptors.push(descriptor(prios[i], true));
        } else {
            descriptors.push(descriptor(200, false));
        }
    }
    task_init(descriptors, 16, interrupts, clock()).unwrap().0
}

fn id(i: u8) -> TaskId {
    TaskId::new(i).unwrap()
}

fn set_regs(t: &mut TaskTable, task: u8, a0: u32, a1: u32, a2: u32) {
    let mut ctx = *t.get(id(task)).context();
    ctx.sys.regs[0] = a0;
    ctx.sys.regs[1] = a1;
    ctx.sys.regs[2] = a2;
    t.save_context(id(task), ctx);
}

#[test]
fn mul_high_exact_values() {
    assert_eq!(u64_mul_high(12345, 1 << 63), 6172);
    assert_eq!(u64_mul_high(u64::MAX, u64::MAX), u64::MAX - 1);
    assert_eq!(u64_mul_high(1 << 32, 1 << 32), 1);
    assert_eq!(u64_mul_high(0, 77), 0);
}

#[test]
fn tick_conversions() {
    let c = Clock { us_per_tick: 1 << 63, tick_frequency: 32_000_000 };
    assert_eq!(ticks_to_us(1000, c), 500);
    assert_eq!(us_to_ticks(1000, c), 31999);
    assert_eq!(us_to_ticks(0, c), 0);
}

#[test]
fn deadline_merge() {
    let mut d = NO_DEADLINE;
    update_deadline(&mut d, 500);
    assert_eq!(d, 500);
    update_deadline(&mut d, 900);
    assert_eq!(d, 500);
    update_deadline(&mut d, 100);
    assert_eq!(d, 100);
}

#[test]
fn interrupt_descriptor_packing() {
    let d = InterruptDescriptor::new(3, 0x00AB_CDEF);
    assert_eq!(d.task_id(), 3);
    assert_eq!(d.notification(), 0x00AB_CDEF);
    assert_eq!(d.0, 0xABCD_EF03);
    let n = InterruptDescriptor::none();
    assert_eq!(n.task_id(), UNOWNED);
}

#[test]
fn interrupt_table_lookup_and_iteration() {
    let t = InterruptTable::new(
        10,
        vec![InterruptDescriptor::none(), InterruptDescriptor::new(2, 4), InterruptDescriptor::new(1, 8)],
    )
    .unwrap();
    assert!(t.get_interrupt_descriptor(9).is_none());
    assert!(t.get_interrupt_descriptor(10).is_none());
    assert_eq!(t.get_interrupt_descriptor(11).unwrap().task_id(), 2);
    assert_eq!(t.get_interrupt_descriptor(12).unwrap().notification(), 8);
    assert!(t.get_interrupt_descriptor(13).is_none());
    let mut it = interrupt_descriptor_iter();
    assert_eq!(it.next(&t).unwrap().0, 11);
    assert_eq!(it.next(&t).unwrap().0, 12);
    assert!(it.next(&t).is_none());
    assert!(InterruptTable::new(usize::MAX, vec![InterruptDescriptor::none()]).is_none());
}

#[test]
fn register_bytes() {
    assert_eq!(read_byte(0x4433_2211, 0), 0x11);
    assert_eq!(read_byte(0x4433_2211, 16), 0x33);
    assert_eq!(read_byte(0x4433_2211, 24), 0x44);
    assert_eq!(min_len(3, 7), 3);
    assert_eq!(min_len(9, 2), 2);
}

#[test]
fn raw_codes_decode() {
    assert!(SysCallId::from_raw(0) == Some(SysCallId::Panic));
    assert!(SysCallId::from_raw(6) == Some(SysCallId::InterruptControl));
    assert!(SysCallId::from_raw(7).is_none());
    assert!(InterruptControl::from_raw(2) == Ok(InterruptControl::Complete));
    assert!(InterruptControl::from_raw(3) == Err(InvalidInterruptControl));
}

#[test]
fn context_helpers() {
    let mut c = SavedContext::zeroed();
    c.task_reset(0x800);
    assert_eq!(c.pc, 0x800);
    c.sys_advance_pc();
    assert_eq!(c.pc, 0x804);
    c.pc = u32::MAX - 1;
    c.sys_advance_pc();
    assert_eq!(c.pc, 2);
    let r = SysRegisters { regs: [5; 26] };
    assert_eq!(r.id(), 5);
    c.sys_registers_mut().regs[3] = 9;
    assert_eq!(c.sys_registers().regs[3], 9);
}

#[test]
fn task_control_block_basics() {
    let mut task = Task::zeroed_at(descriptor(4, true));
    assert!(task.state() == TaskState::Fatal);
    assert_eq!(task.current_priority(), 0);
    assert!(!task.post(0x3));
    assert_eq!(task.notifications(), 0x3);
    task.reset_notifications();
    assert_eq!(task.notifications(), 0);
    let mut programmed = NO_DEADLINE;
    task.set_timer(false, 10, 5, clock(), &mut programmed);
    assert_eq!(task.timer_deadline(), 15);
    assert_eq!(programmed, 15);
    assert!(!task.evaluate_timer(14, &mut programmed));
    assert!(!task.evaluate_timer(15, &mut programmed));
    assert_eq!(task.notifications(), SYS_NOTIFICATION_TIMER);
    assert_eq!(task.timer_deadline(), NO_DEADLINE);
}

#[test]
fn trap_causes() {
    assert!(is_interrupt(0x8000_0007));
    assert!(is_exception(8));
    assert!(classify(8, Family::Generic) == TrapCause::Syscall);
    assert!(classify(0x8000_0003, Family::Generic) == TrapCause::Reschedule);
    assert!(classify(0x8000_0007, Family::Generic) == TrapCause::Timer);
    assert!(classify(0x8000_000b, Family::Generic) == TrapCause::External(None));
    assert!(classify(0x8000_0001, Family::Generic) == TrapCause::UnexpectedInterrupt);
    assert!(classify(2, Family::Generic) == TrapCause::UnexpectedException);
    assert!(classify(0x8000_000e, Family::WchV4c) == TrapCause::Reschedule);
    assert!(classify(0x8000_000c, Family::WchV4c) == TrapCause::Timer);
    assert!(classify(0x8000_0015, Family::WchV4c) == TrapCause::External(Some(0x15)));
}

#[test]
fn schedule_resolution() {
    let mut t = table(&[5, 3, 9], vec![]);
    let same = resolve_schedule(&t, id(0), Schedule::Same, true, true).unwrap();
    assert!(same == TrapOutcome { next: id(0), restore: RestoreContext::Full, reschedule_later: false });
    let partial = resolve_schedule(&t, id(0), Schedule::Same, false, false).unwrap();
    assert!(partial.restore == RestoreContext::Partial);
    let later = resolve_schedule(&t, id(0), Schedule::Exactly(id(1)), false, false).unwrap();
    assert!(later == TrapOutcome { next: id(0), restore: RestoreContext::Partial, reschedule_later: true });
    let switch = resolve_schedule(&t, id(0), Schedule::Exactly(id(1)), true, true).unwrap();
    assert!(switch == TrapOutcome { next: id(1), restore: RestoreContext::Full, reschedule_later: false });
    let other = resolve_schedule(&t, id(0), Schedule::Other, true, false).unwrap();
    assert!(other.next == id(1));
    assert!(resolve_schedule(&t, id(0), Schedule::Exactly(id(0)), true, true).is_none());
    for i in 0..3 {
        kernel::task::do_panic(&mut t, id(i));
    }
    assert!(resolve_schedule(&t, id(0), Schedule::Other, true, false).is_none());
}

#[test]
fn syscall_notify_through_registers() {
    let mut t = table(&[5, 3], vec![]);
    set_regs(&mut t, 1, 1, 0, 0);
    assert!(handle_syscall(&mut t, id(1), 0) == Schedule::Other);
    assert!(t.get(id(1)).state() == TaskState::Receive);
    let pc = t.get(id(0)).context().pc;
    set_regs(&mut t, 0, 4, 1, 0x40);
    assert!(handle_syscall(&mut t, id(0), 0) == Schedule::Exactly(id(1)));
    assert_eq!(t.get(id(0)).context().pc, pc + 4);
    assert_eq!(t.get(id(1)).context().sys.regs[2], 0x40);
}

#[test]
fn syscall_rejects_bad_arguments() {
    let mut t = table(&[5, 3], vec![]);
    set_regs(&mut t, 0, 3, 0x000B_0001, 0);
    assert!(handle_syscall(&mut t, id(0), 0) == Schedule::Other);
    assert!(t.get(id(0)).state() == TaskState::Fatal);
    let mut t = table(&[5, 3], vec![]);
    set_regs(&mut t, 0, 3, 40, 0);
    assert!(handle_syscall(&mut t, id(0), 0) == Schedule::Other);
    assert!(t.get(id(0)).state() == TaskState::Fatal);
    let mut t = table(&[5, 3], vec![]);
    set_regs(&mut t, 0, 99, 0, 0);
    assert!(handle_syscall(&mut t, id(0), 0) == Schedule::Other);
    assert!(t.get(id(0)).state() == TaskState::Fatal);
    let mut t = table(&[5, 3], vec![]);
    set_regs(&mut t, 0, 6, 16, 7);
    assert!(handle_syscall(&mut t, id(0), 0) == Schedule::Other);
    assert!(t.get(id(0)).state() == TaskState::Fatal);
}

#[test]
fn syscall_call_and_timer_through_registers() {
    let mut t = table(&[5, 3], vec![]);
    set_regs(&mut t, 1, 1, 2, 0);
    handle_syscall(&mut t, id(1), 0);
    let mut ctx = *t.get(id(0)).context();
    ctx.sys.regs[0] = 3;
    ctx.sys.regs[1] = 1 | (1 << 16) | (2 << 24);
    ctx.sys.regs[MESSAGE_DATA_START] = 0xAB;
    t.save_context(id(0), ctx);
    assert!(handle_syscall(&mut t, id(0), 0) == Schedule::Exactly(id(1)));
    assert_eq!(t.get(id(1)).context().sys.regs[MESSAGE_DATA_START], 0xAB);
    set_regs(&mut t, 1, 5, 1, 100);
    assert!(handle_syscall(&mut t, id(1), 1000) == Schedule::Same);
    assert_eq!(t.get(id(1)).timer_deadline(), 1100);
    assert_eq!(t.get(id(1)).timer_period(), Some(100));
}

#[test]
fn trap_for_timer_defers_switch() {
    let mut t = table(&[5, 3], vec![]);
    set_regs(&mut t, 1, 5, 0, 50);
    handle_syscall(&mut t, id(1), 0);
    set_regs(&mut t, 1, 1, 0, 0);
    handle_syscall(&mut t, id(1), 0);
    let out = handle_trap(&mut t, id(0), 0x8000_000c, Family::WchV4c, 60, &vec![]).unwrap();
    assert!(out == TrapOutcome { next: id(0), restore: RestoreContext::Partial, reschedule_later: true });
    assert!(t.get(id(1)).state() == TaskState::Ready);
    let out = handle_trap(&mut t, id(0), 0x8000_000e, Family::WchV4c, 61, &vec![]).unwrap();
    assert!(out == TrapOutcome { next: id(1), restore: RestoreContext::Full, reschedule_later: false });
}

#[test]
fn timer_expiration_handler() {
    let mut t = table(&[5, 3], vec![]);
    set_regs(&mut t, 1, 5, 0, 50);
    handle_syscall(&mut t, id(1), 0);
    assert!(handle_timer_expiration(&mut t, id(0), 49) == Schedule::Same);
    assert!(handle_timer_expiration(&mut t, id(0), 50) == Schedule::Same);
    assert_eq!(t.get(id(1)).notifications(), SYS_NOTIFICATION_TIMER);
}

#[test]
fn trap_for_external_interrupt() {
    let irqs = vec![InterruptDescriptor::new(1, 0x4)];
    let mut t = table(&[5, 3], irqs);
    set_regs(&mut t, 1, 1, 0, 0);
    handle_syscall(&mut t, id(1), 0);
    let out = handle_trap(&mut t, id(0), 0x8000_0010, Family::WchV4c, 0, &vec![]).unwrap();
    assert!(out.reschedule_later);
    assert!(!t.interrupts().is_enabled(16));
    assert!(t.get(id(1)).state() == TaskState::Ready);
    assert!(handle_trap(&mut t, id(0), 0x8000_0011, Family::WchV4c, 0, &vec![]).is_none());
    let out = handle_trap(&mut t, id(0), 0x8000_000b, Family::Generic, 0, &vec![16]).unwrap();
    assert!(out.next == id(0));
    assert!(handle_trap(&mut t, id(0), 2, Family::Generic, 0, &vec![]).is_none());
}

#[test]
fn memory_protection_of_task() {
    let t = table(&[5], vec![]);
    let mp = apply_memory_protection(t.get(id(0)));
    assert_eq!(mp.pmp_cfg, 0x1f);
    assert_eq!(mp.pmp_addr, [1, 2, 3, 5]);
}

#[test]
fn pfic_register_writes() {
    assert!(interrupt_control(37, InterruptControl::Disable) == PficWrite { register: PficRegister::Irer, word: 1, mask: 1 << 5 });
    assert!(interrupt_control(37, InterruptControl::Complete) == PficWrite { register: PficRegister::Ienr, word: 1, mask: 1 << 5 });
    let (a, b) = reset_interrupt(3);
    assert!(a == PficWrite { register: PficRegister::Irer, word: 0, mask: 8 });
    assert!(b == PficWrite { register: PficRegister::Iprr, word: 0, mask: 8 });
    assert!(set_software_interrupt() == PficWrite { register: PficRegister::Ipsr, word: 0, mask: 1 << 14 });
    assert!(clear_software_interrupt() == PficWrite { register: PficRegister::Iprr, word: 0, mask: 1 << 14 });
}

#[test]
fn usb_register_fields() {
    let r = base_ctrl::R { bits: 0b1011_0101 };
    assert!(r.dma_en());
    assert!(!r.clr_all());
    assert_eq!(r.sys_mode(), 3);
    assert!(r.host_mode());
    let mut w = base_ctrl::W::reset();
    assert_eq!(w.bits, 0x06);
    w.dma_en(true);
    w.rst_sie(false);
    w.sys_mode(0b110);
    assert_eq!(w.bits, 0b0010_0011);
    let s = int_st::R { bits: 0b0110_0101 };
    assert_eq!(s.endp(), 5);
    assert!(s.token().is_in());
    assert!(s.token().variant() == int_st::TOKEN_A::In);
    assert!(s.tog_ok());
    assert_eq!(rx_len::R { bits: 0x1ff }.rx_len(), 0x7f);
    let mut c = ep_ctrl_h::W { bits: 0 };
    ep_ctrl_h::T_RES_W::stall(&mut c);
    c.r_res(ep_ctrl_h::R_RES_A::Nak);
    c.t_tog(true);
    assert_eq!(c.bits, 0b0100_1011);
    let cr = ep_ctrl_h::R { bits: c.bits };
    assert!(cr.t_res().is_stall());
    assert!(cr.r_res().is_nak());
    assert!(cr.t_tog());
    assert!(!cr.r_tog());
}

#[test]
fn reschedule_to_same_task_restores_partially() {
    let mut t = table(&[2, 5], vec![]);
    let out = handle_trap(&mut t, id(0), 0x8000_000e, Family::WchV4c, 0, &vec![]).unwrap();
    assert!(out == TrapOutcome { next: id(0), restore: RestoreContext::Partial, reschedule_later: false });
    let other = resolve_schedule(&t, id(0), Schedule::Other, true, true).unwrap();
    assert!(other == TrapOutcome { next: id(0), restore: RestoreContext::Full, reschedule_later: false });
    let other = resolve_schedule(&t, id(1), Schedule::Other, true, false).unwrap();
    assert!(other == TrapOutcome { next: id(0), restore: RestoreContext::Full, reschedule_later: false });
}

#[test]
fn claimed_interrupts_are_delivered_in_order() {
    let irqs = vec![InterruptDescriptor::new(1, 0x1), InterruptDescriptor::new(2, 0x2), InterruptDescriptor::none()];
    let mut t = table(&[5, 9, 1], irqs);
    set_regs(&mut t, 1, 1, 0, 0);
    handle_syscall(&mut t, id(1), 0);
    set_regs(&mut t, 2, 1, 0, 0);
    handle_syscall(&mut t, id(2), 0);
    assert!(handle_claimed_interrupts(&mut t, id(0), &vec![16]) == Some(Schedule::Same));
    assert!(t.get(id(1)).state() == TaskState::Ready);
    assert_eq!(t.get(id(1)).context().sys.regs[2], 0x1);
    assert!(handle_claimed_interrupts(&mut t, id(0), &vec![16, 17]) == Some(Schedule::Other));
    assert!(t.get(id(2)).state() == TaskState::Ready);
    assert_eq!(t.get(id(1)).notifications(), 0x1);
    assert!(handle_claimed_interrupts(&mut t, id(0), &vec![18]).is_none());
}

#[test]
fn unconfigured_target_is_fatal() {
    let mut descriptors = Vec::new();
    descriptors.push(descriptor(5, true));
    descriptors.push(descriptor(6, true));
    let (mut t, first) = task_init(descriptors, 16, vec![], clock()).unwrap();
    assert_eq!(first.as_u8(), 0);
    assert_eq!(t.configured(), 2);
    assert!(t.task_id(1).is_some());
    assert!(t.task_id(2).is_none());
    assert!(t.get(id(5)).state() == TaskState::Fatal);
    set_regs(&mut t, 0, 3, 5, 0);
    assert!(handle_syscall(&mut t, id(0), 0) == Schedule::Other);
    assert!(t.get(id(0)).state() == TaskState::Fatal);
    set_regs(&mut t, 1, 4, 9, 1);
    assert!(handle_syscall(&mut t, id(1), 0) == Schedule::Other);
    assert!(t.get(id(1)).state() == TaskState::Fatal);
}

#[test]
fn task_count_must_be_in_range() {
    assert!(task_init(vec![], 16, vec![], clock()).is_none());
    let mut many = Vec::new();
    for _ in 0..NUM_TASKS + 1 {
        many.push(descriptor(1, true));
    }
    assert!(task_init(many, 16, vec![], clock()).is_none());
    let two = vec![descriptor(1, true), descriptor(2, true)];
    assert!(task_init(two, 16, vec![InterruptDescriptor::new(2, 1)], clock()).is_none());
}
