use vstd::prelude::*;
use crate::alu::{
    add_words, comparison, compare_words, difference_with_borrow, divide_words, multiply_words,
    product_halves, quotient_remainder, shift_left, shift_right, shifted_left, shifted_right,
    subtract_words, sum_with_carry, wrap,
};
use crate::memory::{Memory, instruction_at, with_word, word_at};
use crate::opcodes::{Opcode, decode};
use crate::types::{Address, Register, Word, INSTRUCTION_SIZE, WORD_SIZE};

verus! {

/// Number of registers of the processor.
pub const REGISTER_COUNT: usize = 256;

/// Number of the register that holds the status flags.
pub const FLAGS: u8 = 0xFD;

/// Number of the register that holds the address of the next instruction.
pub const INSTRUCTION_POINTER: u8 = 0xFE;

/// Number of the register that holds the address of the next free stack slot.
pub const STACK_POINTER: u8 = 0xFF;

/// Where execution starts.
pub const ENTRY_POINT: Address = 0;

/// The lowest address of the stack, which grows upwards.
pub const STACK_START: Address = 0x0080_0000;

/// The status flags, each a bit of the `FLAGS` register.
#[derive(Clone, Copy, PartialEq, Eq, Structural, Debug)]
pub enum Flag {
    Zero,
    Carry,
    DivideByZero,
}

/// The bit of the `FLAGS` register that holds a flag.
pub open spec fn flag_mask(f: Flag) -> Word {
    match f {
        Flag::Zero => 1,
        Flag::Carry => 2,
        Flag::DivideByZero => 4,
    }
}

/// Registers and memory of a machine, as values.
pub struct MachineState {
    pub registers: Seq<Word>,
    pub memory: Seq<u8>,
}

/// The value of register `r`.
pub open spec fn reg(regs: Seq<Word>, r: Register) -> Word {
    regs[r.0 as int]
}

/// The registers after writing `v` into register `r`.
pub open spec fn with_reg(regs: Seq<Word>, r: Register, v: Word) -> Seq<Word> {
    regs.update(r.0 as int, v)
}

/// Whether flag `f` is set.
pub open spec fn flag(regs: Seq<Word>, f: Flag) -> bool {
    reg(regs, Register(FLAGS)) & flag_mask(f) != 0
}

/// The registers after setting flag `f` to `v`; the other bits of `FLAGS`
/// are kept.
pub open spec fn with_flag(regs: Seq<Word>, f: Flag, v: bool) -> Seq<Word> {
    let old_flags = reg(regs, Register(FLAGS));
    with_reg(regs, Register(FLAGS), if v { old_flags | flag_mask(f) } else { old_flags & !flag_mask(f) })
}

/// Writes `result` into `t` and sets the Zero flag from it.
pub open spec fn with_result(regs: Seq<Word>, t: Register, result: Word) -> Seq<Word> {
    with_flag(with_reg(regs, t, result), Flag::Zero, result == 0)
}

/// Writes `result` into `t` and sets the Zero flag from it and the Carry flag
/// to `carry`.
pub open spec fn with_result_and_carry(regs: Seq<Word>, t: Register, result: Word, carry: bool) -> Seq<Word> {
    with_flag(with_result(regs, t, result), Flag::Carry, carry)
}

/// The registers a processor starts with: all zero except the instruction
/// pointer, at `ENTRY_POINT`, and the stack pointer, at `STACK_START`.
pub open spec fn initial_registers() -> Seq<Word> {
    Seq::new(
        REGISTER_COUNT as nat,
        |i: int|
            if i == INSTRUCTION_POINTER {
                ENTRY_POINT
            } else if i == STACK_POINTER {
                STACK_START
            } else {
                0
            },
    )
}

/// The effect of executing `op` on a machine state (whose instruction
/// pointer has already been advanced past it).
pub open spec fn execute(op: Opcode, st: MachineState) -> MachineState {
    let regs = st.registers;
    let mem = st.memory;
    match op {
        Opcode::MoveRegisterImmediate { r, immediate } => MachineState {
            registers: with_reg(regs, r, immediate),
            memory: mem,
        },
        Opcode::MoveRegisterAddress { r, address } => MachineState {
            registers: with_reg(regs, r, word_at(mem, address as int)),
            memory: mem,
        },
        Opcode::MoveTargetSource { t, s } => MachineState {
            registers: with_reg(regs, t, reg(regs, s)),
            memory: mem,
        },
        Opcode::MoveAddressRegister { address, r } => MachineState {
            registers: regs,
            memory: with_word(mem, address as int, reg(regs, r)),
        },
        Opcode::MoveTargetPointer { t, p } => MachineState {
            registers: with_reg(regs, t, word_at(mem, reg(regs, p) as int)),
            memory: mem,
        },
        Opcode::MovePointerSource { p, s } => MachineState {
            registers: regs,
            memory: with_word(mem, reg(regs, p) as int, reg(regs, s)),
        },
        Opcode::HaltAndCatchFire {  } => st,
        Opcode::AddTargetLhsRhs { t, l, r } => {
            let (v, c) = sum_with_carry(reg(regs, l), reg(regs, r));
            MachineState { registers: with_result_and_carry(regs, t, v, c), memory: mem }
        },
        Opcode::SubtractTargetLhsRhs { t, l, r } => {
            let (v, c) = difference_with_borrow(reg(regs, l), reg(regs, r), false);
            MachineState { registers: with_result_and_carry(regs, t, v, c), memory: mem }
        },
        Opcode::SubtractWithCarryTargetLhsRhs { t, l, r } => {
            let (v, c) = difference_with_borrow(reg(regs, l), reg(regs, r), flag(regs, Flag::Carry));
            MachineState { registers: with_result_and_carry(regs, t, v, c), memory: mem }
        },
        Opcode::MultiplyHighLowLhsRhs { h, t, l, r } => {
            let (high, low) = product_halves(reg(regs, l), reg(regs, r));
            let written = with_reg(with_reg(regs, h, high), t, low);
            MachineState {
                registers: with_flag(with_flag(written, Flag::Zero, low == 0), Flag::Carry, high != 0),
                memory: mem,
            }
        },
        Opcode::DivmodTargetModLhsRhs { d, m, l, r } => {
            let (q, rem) = quotient_remainder(reg(regs, l), reg(regs, r));
            let written = with_reg(with_reg(regs, d, q), m, rem);
            MachineState {
                registers: with_flag(
                    with_flag(written, Flag::Zero, q == 0),
                    Flag::DivideByZero,
                    reg(regs, r) == 0,
                ),
                memory: mem,
            }
        },
        Opcode::AndTargetLhsRhs { t, l, r } => MachineState {
            registers: with_result(regs, t, reg(regs, l) & reg(regs, r)),
            memory: mem,
        },
        Opcode::OrTargetLhsRhs { t, l, r } => MachineState {
            registers: with_result(regs, t, reg(regs, l) | reg(regs, r)),
            memory: mem,
        },
        Opcode::XorTargetLhsRhs { t, l, r } => MachineState {
            registers: with_result(regs, t, reg(regs, l) ^ reg(regs, r)),
            memory: mem,
        },
        Opcode::NotTargetSource { t, s } => MachineState {
            registers: with_result(regs, t, !reg(regs, s)),
            memory: mem,
        },
        Opcode::LeftShiftTargetLhsRhs { t, l, r } => {
            let (v, c) = shifted_left(reg(regs, l), reg(regs, r));
            MachineState { registers: with_result_and_carry(regs, t, v, c), memory: mem }
        },
        Opcode::RightShiftTargetLhsRhs { t, l, r } => {
            let (v, c) = shifted_right(reg(regs, l), reg(regs, r));
            MachineState { registers: with_result_and_carry(regs, t, v, c), memory: mem }
        },
        Opcode::AddTargetSourceImmediate { t, s, immediate } => {
            let (v, c) = sum_with_carry(reg(regs, s), immediate);
            MachineState { registers: with_result_and_carry(regs, t, v, c), memory: mem }
        },
        Opcode::SubtractTargetSourceImmediate { t, s, immediate } => {
            let (v, c) = difference_with_borrow(reg(regs, s), immediate, false);
            MachineState { registers: with_result_and_carry(regs, t, v, c), memory: mem }
        },
        Opcode::CompareTargetLhsRhs { t, l, r } => MachineState {
            registers: with_result(regs, t, comparison(reg(regs, l), reg(regs, r))),
            memory: mem,
        },
        Opcode::PushRegister { r } => {
            let sp = reg(regs, Register(STACK_POINTER));
            MachineState {
                registers: with_reg(regs, Register(STACK_POINTER), wrap(sp + WORD_SIZE)),
                memory: with_word(mem, sp as int, reg(regs, r)),
            }
        },
        Opcode::PopRegister { r } => {
            let sp = wrap(reg(regs, Register(STACK_POINTER)) - WORD_SIZE);
            MachineState {
                registers: with_reg(with_reg(regs, Register(STACK_POINTER), sp), r, word_at(mem, sp as int)),
                memory: mem,
            }
        },
    }
}

/// One step of the machine: the instruction at the instruction pointer is
/// fetched, the instruction pointer moves past it, and the instruction is
/// executed. `HaltAndCatchFire`, and an instruction whose opcode number is
/// unknown, leave the machine as it is.
pub open spec fn tick(st: MachineState) -> MachineState {
    let ip = reg(st.registers, Register(INSTRUCTION_POINTER));
    match decode(instruction_at(st.memory, ip as int)) {
        Some(op) => if op is HaltAndCatchFire {
            st
        } else {
            execute(
                op,
                MachineState {
                    registers: with_reg(st.registers, Register(INSTRUCTION_POINTER), wrap(ip + INSTRUCTION_SIZE)),
                    memory: st.memory,
                },
            )
        },
        None => st,
    }
}

/// The register file of the machine.
pub struct Processor {
    registers: Vec<Word>,
}

impl View for Processor {
    type V = Seq<Word>;

    closed spec fn view(&self) -> Seq<Word> {
        self.registers@
    }
}

fn flag_bit(f: Flag) -> (m: Word)
    ensures
        m == flag_mask(f),
{
    match f {
        Flag::Zero => 1,
        Flag::Carry => 2,
        Flag::DivideByZero => 4,
    }
}

impl Processor {
    /// The register file holds exactly `REGISTER_COUNT` registers.
    pub open spec fn wf(&self) -> bool {
        self@.len() == REGISTER_COUNT
    }

    /// A processor in its initial state.
    pub fn new() -> (p: Self)
        ensures
            p.wf(),
            p@ == initial_registers(),
    {
        let mut registers: Vec<Word> = Vec::with_capacity(REGISTER_COUNT);
        let mut i: usize = 0;
        while i < REGISTER_COUNT
            invariant
                i <= REGISTER_COUNT,
                registers@.len() == i,
                forall|j: int| 0 <= j < i ==> #[trigger] registers@[j] == initial_registers()[j],
            decreases REGISTER_COUNT - i,
        {
            let v = if i == INSTRUCTION_POINTER as usize {
                ENTRY_POINT
            } else if i == STACK_POINTER as usize {
                STACK_START
            } else {
                0
            };
            registers.push(v);
            i = i + 1;
        }
        assert(registers@ =~= initial_registers());
        Processor { registers }
    }

    /// The value of register `r`.
    pub fn get_register(&self, r: Register) -> (v: Word)
        requires
            self.wf(),
        ensures
            v == reg(self@, r),
    {
        self.registers[r.0 as usize]
    }

    /// Writes `v` into register `r`.
    pub fn set_register(&mut self, r: Register, v: Word)
        requires
            old(self).wf(),
        ensures
            final(self).wf(),
            final(self)@ == with_reg(old(self)@, r, v),
    {
        self.registers.set(r.0 as usize, v);
    }

    /// Whether flag `f` is set.
    pub fn get_flag(&self, f: Flag) -> (b: bool)
        requires
            self.wf(),
        ensures
            b == flag(self@, f),
    {
        self.get_register(Register(FLAGS)) & flag_bit(f) != 0
    }

    /// Sets flag `f` to `v`, keeping the other flags.
    pub fn set_flag(&mut self, f: Flag, v: bool)
        requires
            old(self).wf(),
        ensures
            final(self).wf(),
            final(self)@ == with_flag(old(self)@, f, v),
    {
        let flags = self.get_register(Register(FLAGS));
        let m = flag_bit(f);
        let new_flags = if v {
            flags | m
        } else {
            flags & !m
        };
        self.set_register(Register(FLAGS), new_flags);
    }

    /// The value of the stack pointer.
    pub fn get_stack_pointer(&self) -> (sp: Address)
        requires
            self.wf(),
        ensures
            sp == reg(self@, Register(STACK_POINTER)),
    {
        self.get_register(Register(STACK_POINTER))
    }

    fn set_result(&mut self, t: Register, result: Word)
        requires
            old(self).wf(),
        ensures
            final(self).wf(),
            final(self)@ == with_result(old(self)@, t, result),
    {
        self.set_register(t, result);
        self.set_flag(Flag::Zero, result == 0);
    }

    fn set_result_and_carry(&mut self, t: Register, result: Word, carry: bool)
        requires
            old(self).wf(),
        ensures
            final(self).wf(),
            final(self)@ == with_result_and_carry(old(self)@, t, result, carry),
    {
        self.set_result(t, result);
        self.set_flag(Flag::Carry, carry);
    }

    fn execute(&mut self, op: Opcode, memory: &mut Memory)
        requires
            old(self).wf(),
            old(memory).wf(),
        ensures
            final(self).wf(),
            final(memory).wf(),
            execute(op, MachineState { registers: old(self)@, memory: old(memory)@ })
                == (MachineState { registers: final(self)@, memory: final(memory)@ }),
    {
        match op {
            Opcode::MoveRegisterImmediate { r, immediate } => {
                self.set_register(r, immediate);
            },
            Opcode::MoveRegisterAddress { r, address } => {
                let v = memory.read_data(address);
                self.set_register(r, v);
            },
            Opcode::MoveTargetSource { t, s } => {
                let v = self.get_register(s);
                self.set_register(t, v);
            },
            Opcode::MoveAddressRegister { address, r } => {
                let v = self.get_register(r);
                memory.write_data(address, v);
            },
            Opcode::MoveTargetPointer { t, p } => {
                let v = memory.read_data(self.get_register(p));
                self.set_register(t, v);
            },
            Opcode::MovePointerSource { p, s } => {
                let a = self.get_register(p);
                let v = self.get_register(s);
                memory.write_data(a, v);
            },
            Opcode::HaltAndCatchFire {  } => {},
            Opcode::AddTargetLhsRhs { t, l, r } => {
                let (v, c) = add_words(self.get_register(l), self.get_register(r));
                self.set_result_and_carry(t, v, c);
            },
            Opcode::SubtractTargetLhsRhs { t, l, r } => {
                let (v, c) = subtract_words(self.get_register(l), self.get_register(r), false);
                self.set_result_and_carry(t, v, c);
            },
            Opcode::SubtractWithCarryTargetLhsRhs { t, l, r } => {
                let borrow = self.get_flag(Flag::Carry);
                let (v, c) = subtract_words(self.get_register(l), self.get_register(r), borrow);
                self.set_result_and_carry(t, v, c);
            },
            Opcode::MultiplyHighLowLhsRhs { h, t, l, r } => {
                let (high, low) = multiply_words(self.get_register(l), self.get_register(r));
                self.set_register(h, high);
                self.set_register(t, low);
                self.set_flag(Flag::Zero, low == 0);
                self.set_flag(Flag::Carry, high != 0);
            },
            Opcode::DivmodTargetModLhsRhs { d, m, l, r } => {
                let divisor = self.get_register(r);
                let (q, rem) = divide_words(self.get_register(l), divisor);
                self.set_register(d, q);
                self.set_register(m, rem);
                self.set_flag(Flag::Zero, q == 0);
                self.set_flag(Flag::DivideByZero, divisor == 0);
            },
            Opcode::AndTargetLhsRhs { t, l, r } => {
                let v = self.get_register(l) & self.get_register(r);
                self.set_result(t, v);
            },
            Opcode::OrTargetLhsRhs { t, l, r } => {
                let v = self.get_register(l) | self.get_register(r);
                self.set_result(t, v);
            },
            Opcode::XorTargetLhsRhs { t, l, r } => {
                let v = self.get_register(l) ^ self.get_register(r);
                self.set_result(t, v);
            },
            Opcode::NotTargetSource { t, s } => {
                let v = !self.get_register(s);
                self.set_result(t, v);
            },
            Opcode::LeftShiftTargetLhsRhs { t, l, r } => {
                let (v, c) = shift_left(self.get_register(l), self.get_register(r));
                self.set_result_and_carry(t, v, c);
            },
            Opcode::RightShiftTargetLhsRhs { t, l, r } => {
                let (v, c) = shift_right(self.get_register(l), self.get_register(r));
                self.set_result_and_carry(t, v, c);
            },
            Opcode::AddTargetSourceImmediate { t, s, immediate } => {
                let (v, c) = add_words(self.get_register(s), immediate);
                self.set_result_and_carry(t, v, c);
            },
            Opcode::SubtractTargetSourceImmediate { t, s, immediate } => {
                let (v, c) = subtract_words(self.get_register(s), immediate, false);
                self.set_result_and_carry(t, v, c);
            },
            Opcode::CompareTargetLhsRhs { t, l, r } => {
                let v = compare_words(self.get_register(l), self.get_register(r));
                self.set_result(t, v);
            },
            Opcode::PushRegister { r } => {
                let sp = self.get_register(Register(STACK_POINTER));
                let v = self.get_register(r);
                memory.write_data(sp, v);
                let (next, _) = add_words(sp, WORD_SIZE);
                self.set_register(Register(STACK_POINTER), next);
            },
            Opcode::PopRegister { r } => {
                let (sp, _) = subtract_words(self.get_register(Register(STACK_POINTER)), WORD_SIZE, false);
                self.set_register(Register(STACK_POINTER), sp);
                let v = memory.read_data(sp);
                self.set_register(r, v);
            },
        }
    }

    /// Executes one instruction: the one at the instruction pointer.
    pub fn make_tick(&mut self, memory: &mut Memory)
        requires
            old(self).wf(),
            old(memory).wf(),
        ensures
            final(self).wf(),
            final(memory).wf(),
            (MachineState { registers: final(self)@, memory: final(memory)@ })
                == tick(MachineState { registers: old(self)@, memory: old(memory)@ }),
    {
        let ip = self.get_register(Register(INSTRUCTION_POINTER));
        let instruction = memory.read_instruction(ip);
        match Opcode::decode(instruction) {
            Some(op) => {
                if let Opcode::HaltAndCatchFire {  } = op {
                } else {
                    let (next, _) = add_words(ip, INSTRUCTION_SIZE);
                    self.set_register(Register(INSTRUCTION_POINTER), next);
                    self.execute(op, memory);
                }
            },
            None => {},
        }
    }
}

} // verus!
