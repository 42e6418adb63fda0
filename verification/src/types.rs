use vstd::prelude::*;

verus! {

/// The machine's data word.
pub type Word = u32;

/// A byte address into the machine's memory.
pub type Address = u32;

/// An encoded instruction.
pub type Instruction = u64;

/// Number of bytes in a `Word`.
pub const WORD_SIZE: u32 = 4;

/// Number of bytes in an `Instruction`.
pub const INSTRUCTION_SIZE: u32 = 8;

/// Number of bits at the top of an instruction that hold its opcode.
pub const OPCODE_LENGTH: u32 = 16;

/// One of the 256 registers of the processor, named by its number.
#[derive(Clone, Copy, PartialEq, Eq, Structural, Debug)]
pub struct Register(pub u8);

} // verus!
