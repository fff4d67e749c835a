//! A small microkernel core for single-core microcontrollers: task control
//! blocks, priority scheduling, synchronous IPC with priority inheritance,
//! per-task timers and static interrupt routing.

pub mod abi;
pub mod context;
pub mod descriptor;
pub mod interrupt;
pub mod syscall;
pub mod task;
pub mod theorems;
pub mod time;
pub mod trap;
pub mod usbfs;
pub mod wch_pfic;
