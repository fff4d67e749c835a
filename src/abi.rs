//! Constants and identifiers shared between the kernel and its tasks.
use vstd::prelude::*;

verus! {

/// Largest message, in words, that a call or a reply may carry.
pub const MAX_MESSAGE_SIZE: usize = 10;

/// Largest message, in bytes (a word is four bytes on the target).
pub const MAX_MESSAGE_LENGTH: usize = 40;

/// The notification bit reserved for timer expiry.
pub const SYS_NOTIFICATION_TIMER_BIT: u32 = 31;

/// The notification mask posted when a task's timer expires.
pub const SYS_NOTIFICATION_TIMER: u32 = 0x8000_0000;

/// The task id a receiver sees when it was woken by a notification.
pub const NO_SENDER: u8 = 0xFF;

/// The system call a task requests, as held in its first argument register.
#[derive(Clone, Copy, Debug, PartialEq, Eq, Structural)]
pub enum SysCallId {
    Panic,
    Receive,
    Send,
    Call,
    Notify,
    SetTimer,
    InterruptControl,
}

impl SysCallId {
    /// The numbering of system calls in the register interface.
    pub open spec fn spec_from_raw(raw: u32) -> Option<SysCallId> {
        if raw == 0 {
            Some(SysCallId::Panic)
        } else if raw == 1 {
            Some(SysCallId::Receive)
        } else if raw == 2 {
            Some(SysCallId::Send)
        } else if raw == 3 {
            Some(SysCallId::Call)
        } else if raw == 4 {
            Some(SysCallId::Notify)
        } else if raw == 5 {
            Some(SysCallId::SetTimer)
        } else if raw == 6 {
            Some(SysCallId::InterruptControl)
        } else {
            None
        }
    }

    /// Decodes a raw system call number; numbers outside the interface give
    /// `None`.
    pub fn from_raw(raw: u32) -> (r: Option<SysCallId>)
        ensures
            r == Self::spec_from_raw(raw),
    {
        match raw {
            0 => Some(SysCallId::Panic),
            1 => Some(SysCallId::Receive),
            2 => Some(SysCallId::Send),
            3 => Some(SysCallId::Call),
            4 => Some(SysCallId::Notify),
            5 => Some(SysCallId::SetTimer),
            6 => Some(SysCallId::InterruptControl),
            _ => None,
        }
    }
}

/// Raw interrupt control operation codes of the register interface.
pub const INTERRUPT_CONTROL_DISABLE: u32 = 0;
pub const INTERRUPT_CONTROL_ENABLE: u32 = 1;
pub const INTERRUPT_CONTROL_COMPLETE: u32 = 2;

} // verus!
