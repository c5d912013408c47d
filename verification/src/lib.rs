//! Instruction-execution core of an 8-bit CPU emulator for the 6502
//! instruction set: an addressable 64 KiB memory, a register file with a
//! processor status byte, an opcode table, an addressing-mode resolver, and
//! a fetch-decode-execute loop, all specified against a mathematical model
//! of the machine state.

pub mod cpu;
pub mod cpu_types;
pub mod instruction;
pub mod model;
