//! A Game Boy Advance core: the memory bus, the ARM7TDMI register file with its
//! program status register, and the THUMB instruction decoder and executor.

pub mod program_status_register;
pub mod bus;
pub mod thumb;
pub mod cpu;
pub mod semantics;
pub mod cycle_check;
pub mod gba;
pub mod instruction_laws;
