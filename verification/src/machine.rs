use vstd::prelude::*;
use crate::memory::{Memory, MEMORY_SIZE, instruction_at};
use crate::opcodes::{Opcode, decode, opcode_field, HALT_AND_CATCH_FIRE};
use crate::processor::{
    MachineState, Processor, initial_registers, reg, tick, INSTRUCTION_POINTER,
};
use crate::terminal::{read_terminal, terminal_row, TERMINAL_HEIGHT};
use crate::types::{Instruction, Register, OPCODE_LENGTH};

verus! {

/// Whether the instruction at the instruction pointer is `HaltAndCatchFire`.
pub open spec fn halted(st: MachineState) -> bool {
    decode(instruction_at(st.memory, reg(st.registers, Register(INSTRUCTION_POINTER)) as int))
        == Some(Opcode::HaltAndCatchFire {  })
}

/// The state a machine starts in: zeroed memory and the initial registers.
pub open spec fn initial_state() -> MachineState {
    MachineState { registers: initial_registers(), memory: Seq::new(MEMORY_SIZE as nat, |i: int| 0u8) }
}

/// A processor together with its memory.
pub struct Machine {
    pub memory: Memory,
    pub processor: Processor,
}

impl View for Machine {
    type V = MachineState;

    open spec fn view(&self) -> MachineState {
        MachineState { registers: self.processor@, memory: self.memory@ }
    }
}

impl Machine {
    /// Memory and register file have their sizes.
    pub open spec fn wf(&self) -> bool {
        self.memory.wf() && self.processor.wf()
    }

    /// A machine with zeroed memory, every register zero but the instruction
    /// pointer (at `ENTRY_POINT`) and the stack pointer (at `STACK_START`).
    pub fn new() -> (machine: Self)
        ensures
            machine.wf(),
            machine@ == initial_state(),
    {
        let memory = Memory::new();
        let processor = Processor::new();
        let machine = Machine { memory, processor };
        assert(machine@.memory =~= initial_state().memory);
        machine
    }

    /// Executes one instruction.
    pub fn make_tick(&mut self)
        requires
            old(self).wf(),
        ensures
            final(self).wf(),
            final(self)@ == tick(old(self)@),
    {
        self.processor.make_tick(&mut self.memory);
    }

    /// Whether the instruction at the instruction pointer is
    /// `HaltAndCatchFire`, after which ticks change nothing.
    pub fn is_halted(&self) -> (b: bool)
        requires
            self.wf(),
        ensures
            b == halted(self@),
    {
        let instruction = self.read_instruction_at_instruction_pointer();
        let bitmask = !(u64::MAX >> OPCODE_LENGTH);
        let b = (instruction & bitmask) >> (u64::BITS - OPCODE_LENGTH) == HALT_AND_CATCH_FIRE as u64;
        proof {
            let i = instruction;
            assert(((i & !(0xFFFF_FFFF_FFFF_FFFFu64 >> 16u32)) >> 48u32) == (i >> 48u64)) by (bit_vector);
            assert((i >> 48u64) == ((i >> 48u64) as u16) as u64) by (bit_vector);
            assert(b == (opcode_field(i) == HALT_AND_CATCH_FIRE));
        }
        b
    }

    fn read_instruction_at_instruction_pointer(&self) -> (i: Instruction)
        requires
            self.wf(),
        ensures
            i == instruction_at(self@.memory, reg(self@.registers, Register(INSTRUCTION_POINTER)) as int),
    {
        self.memory.read_instruction(self.processor.get_register(Register(INSTRUCTION_POINTER)))
    }

    /// The characters that the terminal shows, row by row.
    pub fn terminal_text(&self) -> (rows: Vec<Vec<u8>>)
        ensures
            rows@.len() == TERMINAL_HEIGHT,
            forall|y: int| 0 <= y < TERMINAL_HEIGHT ==> #[trigger] rows@[y]@ == terminal_row(self@.memory, y),
    {
        read_terminal(&self.memory)
    }
}

} // verus!
