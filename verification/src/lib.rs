//! A Game Boy (LR35902) emulation core: the CPU, its bus and the memory-mapped
//! devices, each with a contract over its registers.
mod bits;
pub mod cpu;
pub mod io;
pub mod mem;
pub mod debugger;
pub mod run_emu;
