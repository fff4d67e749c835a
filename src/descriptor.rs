//! Static, build-time configuration of tasks and interrupts.
use vstd::prelude::*;

verus! {

/// Number of memory protection address registers given to each task.
pub const NUM_PMP_ENTRIES: usize = 4;

/// Task flags of the static configuration.
#[derive(Clone, Copy, Debug, PartialEq, Eq, Structural)]
pub struct Flags {
    pub bits: u8,
}

impl Flags {
    /// The task starts on boot.
    pub const BOOT: u8 = 0x01;
    /// The task runs in a privileged mode (machine mode).
    pub const PRIVILEGED: u8 = 0x02;
    /// The death of the task is a critical error for the whole system.
    pub const CRITICAL: u8 = 0x04;

    pub open spec fn spec_contains(self, flag: u8) -> bool {
        self.bits & flag == flag
    }

    /// Whether every bit of `flag` is set.
    pub fn contains(&self, flag: u8) -> (r: bool)
        ensures
            r == self.spec_contains(flag),
    {
        self.bits & flag == flag
    }
}

/// Memory protection settings of a task: the address registers and the
/// packed configuration register.
#[derive(Clone, Copy)]
pub struct ArchTaskDescriptor {
    pub pmp_addr: [u32; NUM_PMP_ENTRIES],
    pub pmp_cfg: u32,
}

/// Static description of one task.
#[derive(Clone, Copy)]
pub struct TaskDescriptor {
    /// Entry point.
    pub init_pc: u32,
    /// Base priority; lower is more urgent.
    pub priority: u8,
    pub flags: Flags,
    pub arch: ArchTaskDescriptor,
}

/// Routing of one interrupt: the owning task in the low byte and the
/// notification mask (24 bits) above it. All ones means "unowned".
#[derive(Clone, Copy, Debug, PartialEq, Eq, Structural)]
pub struct InterruptDescriptor(pub u32);

/// Largest notification mask that fits in an interrupt descriptor.
pub const INTERRUPT_NOTIFICATION_MASK: u32 = 0x00FF_FFFF;

/// The owner field that marks an unowned interrupt.
pub const UNOWNED: u8 = 0xFF;

impl InterruptDescriptor {
    pub open spec fn spec_task_id(self) -> u8 {
        (self.0 & 0xFF) as u8
    }

    pub open spec fn spec_notification(self) -> u32 {
        self.0 >> 8
    }

    /// Routes an interrupt to `task_id` with the given notification bits; the
    /// bits must fit in 24 bits.
    pub fn new(task_id: u8, notification: u32) -> (r: InterruptDescriptor)
        requires
            notification & INTERRUPT_NOTIFICATION_MASK == notification,
        ensures
            r.spec_task_id() == task_id,
            r.spec_notification() == notification,
    {
        let r = InterruptDescriptor((task_id as u32) | (notification << 8u32));
        assert((((task_id as u32) | (notification << 8u32)) & 0xFF) as u8 == task_id
            && ((task_id as u32) | (notification << 8u32)) >> 8u32 == notification) by (bit_vector)
            requires
                notification & 0x00FF_FFFFu32 == notification,
        ;
        r
    }

    /// The descriptor of an interrupt that no task owns.
    pub fn none() -> (r: InterruptDescriptor)
        ensures
            r.spec_task_id() == UNOWNED,
            r.0 == 0xFFFF_FFFFu32,
    {
        assert((0xFFFF_FFFFu32 & 0xFF) as u8 == 0xFFu8) by (bit_vector);
        InterruptDescriptor(0xFFFF_FFFF)
    }

    /// The owning task.
    pub fn task_id(&self) -> (r: u8)
        ensures
            r == self.spec_task_id(),
    {
        (self.0 & 0xFF) as u8
    }

    /// The notification bits posted to the owner.
    pub fn notification(&self) -> (r: u32)
        ensures
            r == self.spec_notification(),
    {
        self.0 >> 8
    }
}

} // verus!
