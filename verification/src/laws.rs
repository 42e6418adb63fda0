use vstd::prelude::*;
use crate::alu::wrap;
use crate::machine::{halted, initial_state};
use crate::memory::{instruction_at, with_instruction, with_word, word_at, lemma_read_data_after_write,
    lemma_read_instruction_after_write, MEMORY_SIZE};
use crate::opcodes::{Opcode, decode, encode, lemma_decode_encode};
use crate::processor::{
    Flag, MachineState, execute, flag, reg, tick, with_flag, with_reg, with_result,
    with_result_and_carry, ENTRY_POINT, FLAGS, INSTRUCTION_POINTER, REGISTER_COUNT, STACK_POINTER,
    STACK_START,
};
use crate::types::{Register, INSTRUCTION_SIZE, WORD_SIZE};

verus! {

/// Registers and memory have the sizes a machine gives them.
pub open spec fn well_sized(st: MachineState) -> bool {
    &&& st.registers.len() == REGISTER_COUNT
    &&& st.memory.len() == MEMORY_SIZE
}

/// The state after `n` ticks.
pub open spec fn run(st: MachineState, n: nat) -> MachineState
    decreases n,
{
    if n == 0 {
        st
    } else {
        run(tick(st), (n - 1) as nat)
    }
}

/// Whether executing `op` may write register `x` (a target operand, the
/// flags of an arithmetic or logic instruction, the stack pointer of a push
/// or pop).
pub open spec fn writes_register(op: Opcode, x: Register) -> bool {
    match op {
        Opcode::MoveRegisterImmediate { r, .. } => x == r,
        Opcode::MoveRegisterAddress { r, .. } => x == r,
        Opcode::MoveTargetSource { t, .. } => x == t,
        Opcode::MoveAddressRegister { .. } => false,
        Opcode::MoveTargetPointer { t, .. } => x == t,
        Opcode::MovePointerSource { .. } => false,
        Opcode::HaltAndCatchFire {  } => false,
        Opcode::AddTargetLhsRhs { t, .. } => x == t || x == Register(FLAGS),
        Opcode::SubtractTargetLhsRhs { t, .. } => x == t || x == Register(FLAGS),
        Opcode::SubtractWithCarryTargetLhsRhs { t, .. } => x == t || x == Register(FLAGS),
        Opcode::MultiplyHighLowLhsRhs { h, t, .. } => x == h || x == t || x == Register(FLAGS),
        Opcode::DivmodTargetModLhsRhs { d, m, .. } => x == d || x == m || x == Register(FLAGS),
        Opcode::AndTargetLhsRhs { t, .. } => x == t || x == Register(FLAGS),
        Opcode::OrTargetLhsRhs { t, .. } => x == t || x == Register(FLAGS),
        Opcode::XorTargetLhsRhs { t, .. } => x == t || x == Register(FLAGS),
        Opcode::NotTargetSource { t, .. } => x == t || x == Register(FLAGS),
        Opcode::LeftShiftTargetLhsRhs { t, .. } => x == t || x == Register(FLAGS),
        Opcode::RightShiftTargetLhsRhs { t, .. } => x == t || x == Register(FLAGS),
        Opcode::AddTargetSourceImmediate { t, .. } => x == t || x == Register(FLAGS),
        Opcode::SubtractTargetSourceImmediate { t, .. } => x == t || x == Register(FLAGS),
        Opcode::CompareTargetLhsRhs { t, .. } => x == t || x == Register(FLAGS),
        Opcode::PushRegister { .. } => x == Register(STACK_POINTER),
        Opcode::PopRegister { r } => x == r || x == Register(STACK_POINTER),
    }
}

/// Whether executing `op` stores into memory.
pub open spec fn writes_memory(op: Opcode) -> bool {
    op is MoveAddressRegister || op is MovePointerSource || op is PushRegister
}

/// Setting a flag makes it read back as set to that value, and leaves the
/// other flags and every other register as they were.
pub proof fn lemma_flag_after_set(regs: Seq<u32>, f: Flag, v: bool, g: Flag, x: Register)
    requires
        regs.len() == REGISTER_COUNT,
    ensures
        flag(with_flag(regs, f, v), f) == v,
        g != f ==> flag(with_flag(regs, f, v), g) == flag(regs, g),
        x != Register(FLAGS) ==> reg(with_flag(regs, f, v), x) == reg(regs, x),
        with_flag(regs, f, v).len() == REGISTER_COUNT,
{
    let fl = reg(regs, Register(FLAGS));
    let m = crate::processor::flag_mask(f);
    let n = crate::processor::flag_mask(g);
    assert(m == 1u32 || m == 2u32 || m == 4u32);
    assert(n == 1u32 || n == 2u32 || n == 4u32);
    assert(((fl | m) & m != 0) && ((fl & !m) & m == 0)) by (bit_vector)
        requires
            m == 1u32 || m == 2u32 || m == 4u32,
    ;
    if g != f {
        assert(m != n);
        assert(((fl | m) & n != 0) == (fl & n != 0) && ((fl & !m) & n != 0) == (fl & n != 0))
            by (bit_vector)
            requires
                m == 1u32 || m == 2u32 || m == 4u32,
                n == 1u32 || n == 2u32 || n == 4u32,
                m != n,
        ;
    }
}

/// An arithmetic or logic result lands in its target register (unless the
/// target is the flag register itself), the Zero flag tells whether it is
/// zero, and the Carry flag is the carry given.
pub proof fn lemma_result_flags(regs: Seq<u32>, t: Register, result: u32, carry: bool)
    requires
        regs.len() == REGISTER_COUNT,
    ensures
        t != Register(FLAGS) ==> reg(with_result(regs, t, result), t) == result,
        t != Register(FLAGS) ==> reg(with_result_and_carry(regs, t, result, carry), t) == result,
        flag(with_result(regs, t, result), Flag::Zero) == (result == 0),
        flag(with_result_and_carry(regs, t, result, carry), Flag::Zero) == (result == 0),
        flag(with_result_and_carry(regs, t, result, carry), Flag::Carry) == carry,
{
    let written = with_reg(regs, t, result);
    lemma_flag_after_set(written, Flag::Zero, result == 0, Flag::Zero, t);
    lemma_flag_after_set(with_result(regs, t, result), Flag::Carry, carry, Flag::Zero, t);
    lemma_flag_after_set(with_result(regs, t, result), Flag::Carry, carry, Flag::Carry, t);
}

/// A new machine starts at `ENTRY_POINT` with its stack at `STACK_START`,
/// every flag clear and every other register zero.
pub proof fn lemma_initial_state(x: Register, f: Flag)
    ensures
        well_sized(initial_state()),
        reg(initial_state().registers, Register(INSTRUCTION_POINTER)) == ENTRY_POINT,
        reg(initial_state().registers, Register(STACK_POINTER)) == STACK_START,
        !flag(initial_state().registers, f),
        x != Register(INSTRUCTION_POINTER) && x != Register(STACK_POINTER) ==> reg(
            initial_state().registers,
            x,
        ) == 0,
{
    let m = crate::processor::flag_mask(f);
    assert(0u32 & m == 0) by (bit_vector);
}

/// A halted machine stays as it is, tick after tick.
pub proof fn lemma_halted_machine_stays(st: MachineState, n: nat)
    requires
        halted(st),
    ensures
        tick(st) == st,
        run(st, n) == st,
    decreases n,
{
    if n > 0 {
        lemma_halted_machine_stays(st, (n - 1) as nat);
    }
}

/// A tick that executes an instruction moves the instruction pointer to the
/// next instruction, unless the instruction itself writes it; it leaves every
/// register the instruction does not write, and leaves memory unless the
/// instruction stores into it.
pub proof fn lemma_tick_effects(st: MachineState, x: Register)
    requires
        well_sized(st),
        decode(instruction_at(st.memory, reg(st.registers, Register(INSTRUCTION_POINTER)) as int)) is Some,
        !halted(st),
    ensures
        ({
            let op = decode(
                instruction_at(st.memory, reg(st.registers, Register(INSTRUCTION_POINTER)) as int),
            ).unwrap();
            let ip = reg(st.registers, Register(INSTRUCTION_POINTER));
            &&& !writes_register(op, Register(INSTRUCTION_POINTER)) ==> reg(
                tick(st).registers,
                Register(INSTRUCTION_POINTER),
            ) == wrap(ip + INSTRUCTION_SIZE)
            &&& (x != Register(INSTRUCTION_POINTER) && !writes_register(op, x)) ==> reg(
                tick(st).registers,
                x,
            ) == reg(st.registers, x)
            &&& !writes_memory(op) ==> tick(st).memory == st.memory
            &&& well_sized(tick(st))
        }),
{
    let ip = reg(st.registers, Register(INSTRUCTION_POINTER));
    let op = decode(instruction_at(st.memory, ip as int)).unwrap();
    let advanced = with_reg(st.registers, Register(INSTRUCTION_POINTER), wrap(ip + INSTRUCTION_SIZE));
    assert(!(op is HaltAndCatchFire));
    // Lemmas about the flag register for every flag an instruction may set.
    lemma_flag_after_set(advanced, Flag::Zero, true, Flag::Zero, x);
    lemma_flag_after_set(advanced, Flag::Zero, false, Flag::Zero, x);
    assert(tick(st) == execute(op, MachineState { registers: advanced, memory: st.memory }));
    assert(well_sized(tick(st)));
}

/// A push stores the register at the stack pointer and moves the stack
/// pointer one word up (modulo 2^32); a pop moves it one word down and loads
/// the word found there. Neither touches another register.
pub proof fn lemma_push_and_pop(st: MachineState, r: Register, x: Register)
    requires
        well_sized(st),
        reg(st.registers, Register(STACK_POINTER)) + WORD_SIZE <= st.memory.len(),
    ensures
        ({
            let sp = reg(st.registers, Register(STACK_POINTER));
            let pushed = execute(Opcode::PushRegister { r }, st);
            let popped = execute(Opcode::PopRegister { r }, st);
            &&& word_at(pushed.memory, sp as int) == reg(st.registers, r)
            &&& reg(pushed.registers, Register(STACK_POINTER)) as int == (sp + 4) % 0x1_0000_0000
            &&& x != Register(STACK_POINTER) ==> reg(pushed.registers, x) == reg(st.registers, x)
            &&& r != Register(STACK_POINTER) ==> reg(popped.registers, Register(STACK_POINTER)) as int
                == (sp - 4) % 0x1_0000_0000
            &&& reg(popped.registers, r) == word_at(st.memory, (sp - 4) % 0x1_0000_0000)
            &&& x != Register(STACK_POINTER) && x != r ==> reg(popped.registers, x) == reg(st.registers, x)
            &&& popped.memory == st.memory
        }),
{
    let sp = reg(st.registers, Register(STACK_POINTER));
    lemma_read_data_after_write(st.memory, sp as int, reg(st.registers, r));
}

/// Pushing a register and then popping into another leaves the pushed value
/// in the second register, and the stack pointer where it was (unless the
/// second register is the stack pointer itself), while the pushed word stays
/// in memory.
pub proof fn lemma_push_then_pop(st: MachineState, r: Register, t: Register)
    requires
        well_sized(st),
        reg(st.registers, Register(STACK_POINTER)) + WORD_SIZE <= st.memory.len(),
    ensures
        ({
            let sp = reg(st.registers, Register(STACK_POINTER));
            let pushed = execute(Opcode::PushRegister { r }, st);
            let popped = execute(Opcode::PopRegister { r: t }, pushed);
            &&& reg(popped.registers, t) == reg(st.registers, r)
            &&& t != Register(STACK_POINTER) ==> reg(popped.registers, Register(STACK_POINTER)) == sp
            &&& popped.memory == with_word(st.memory, sp as int, reg(st.registers, r))
            &&& word_at(popped.memory, sp as int) == reg(st.registers, r)
        }),
{
    let sp = reg(st.registers, Register(STACK_POINTER));
    lemma_read_data_after_write(st.memory, sp as int, reg(st.registers, r));
    assert(wrap(wrap(sp + WORD_SIZE) - WORD_SIZE) == sp);
}

/// Ticking a machine whose next instruction was just written as `op`
/// executes `op`: the encoding in memory decodes to the same opcode.
pub proof fn lemma_tick_executes_written_instruction(st: MachineState, op: Opcode)
    requires
        well_sized(st),
        reg(st.registers, Register(INSTRUCTION_POINTER)) + INSTRUCTION_SIZE <= st.memory.len(),
    ensures
        ({
            let ip = reg(st.registers, Register(INSTRUCTION_POINTER));
            let written = MachineState {
                registers: st.registers,
                memory: with_instruction(st.memory, ip as int, encode(op)),
            };
            &&& op is HaltAndCatchFire ==> tick(written) == written && halted(written)
            &&& !(op is HaltAndCatchFire) ==> tick(written) == execute(
                op,
                MachineState {
                    registers: with_reg(st.registers, Register(INSTRUCTION_POINTER), wrap(ip + INSTRUCTION_SIZE)),
                    memory: written.memory,
                },
            )
        }),
{
    let ip = reg(st.registers, Register(INSTRUCTION_POINTER));
    lemma_read_instruction_after_write(st.memory, ip as int, encode(op));
    lemma_decode_encode(op);
}

} // verus!
