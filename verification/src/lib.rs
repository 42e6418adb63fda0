//! A small 32-bit register machine: byte-addressed memory, a register file,
//! a fixed-width instruction encoding and a processor that executes one
//! instruction per tick.

pub mod types;
pub mod memory;
pub mod opcodes;
pub mod alu;
pub mod processor;
pub mod terminal;
pub mod machine;
pub mod laws;
pub mod instruction_laws;
