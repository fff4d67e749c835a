//! The saved register context of a task, and the byte layout of the system
//! call arguments and results that live in it.
use vstd::prelude::*;

verus! {

/// Number of registers that carry system call arguments and results
/// (a0-a7, t0-t6, ra, s2-s11).
pub const SYS_REGISTER_COUNT: usize = 26;

/// The byte of a 32-bit register that starts at bit `shift`.
pub open spec fn byte_of(word: u32, shift: u32) -> u8 {
    ((word >> shift) & 0xff) as u8
}

/// The registers that carry system call arguments and results, in the
/// order a0-a7, t0-t6, ra, s2-s11.
#[derive(Clone, Copy)]
pub struct SysRegisters {
    pub regs: [u32; SYS_REGISTER_COUNT],
}

impl SysRegisters {
    /// The system call number, held in a0.
    pub fn id(&self) -> (r: u32)
        ensures
            r == self.regs@[0],
    {
        self.regs[0]
    }
}

/// Saved register state of a task on a 32-bit RISC-V core.
#[derive(Clone, Copy)]
pub struct SavedContext {
    /// The system call register window.
    pub sys: SysRegisters,
    pub pc: u32,
    pub sp: u32,
    pub s0: u32,
    pub s1: u32,
    pub gp: u32,
    pub tp: u32,
}

impl SavedContext {
    /// All registers zero.
    pub fn zeroed() -> (r: SavedContext)
        ensures
            forall|i: int| 0 <= i < SYS_REGISTER_COUNT ==> r.sys.regs@[i] == 0,
            r.pc == 0,
            r.sp == 0,
            r.s0 == 0,
            r.s1 == 0,
            r.gp == 0,
            r.tp == 0,
    {
        SavedContext {
            sys: SysRegisters { regs: [0u32; SYS_REGISTER_COUNT] },
            pc: 0,
            sp: 0,
            s0: 0,
            s1: 0,
            gp: 0,
            tp: 0,
        }
    }

    /// Prepares the context for a fresh start at `init_pc`; every other
    /// register is the task's own responsibility.
    pub fn task_reset(&mut self, init_pc: u32)
        ensures
            *final(self) == (SavedContext { pc: init_pc, ..*old(self) }),
    {
        self.pc = init_pc;
    }

    /// The system call register window.
    pub fn sys_registers(&self) -> (r: &SysRegisters)
        ensures
            *r == self.sys,
    {
        &self.sys
    }

    /// The system call register window, for writing.
    pub fn sys_registers_mut(&mut self) -> (r: &mut SysRegisters)
        ensures
            *r == old(self).sys,
            *final(self) == (SavedContext { sys: *final(r), ..*old(self) }),
    {
        &mut self.sys
    }

    /// Steps the program counter over the `ecall` instruction that raised a
    /// system call, so that the task resumes after it. The address wraps like
    /// the hardware's.
    pub fn sys_advance_pc(&mut self)
        ensures
            *final(self) == (SavedContext { pc: old(self).pc.wrapping_add(4), ..*old(self) }),
    {
        self.pc = self.pc.wrapping_add(4);
    }
}

} // verus!
