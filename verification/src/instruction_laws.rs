use vstd::prelude::*;
use crate::alu::{
    difference_with_borrow, lemma_comparison_law, lemma_difference_law, lemma_product_law,
    lemma_quotient_law, lemma_shift_left_law, lemma_shift_right_law, lemma_sum_law,
    product_halves, quotient_remainder, sum_with_carry,
};
use crate::laws::{lemma_flag_after_set, lemma_result_flags, well_sized};
use crate::memory::{lemma_read_data_after_write, with_word, word_at};
use crate::opcodes::Opcode;
use crate::processor::{Flag, MachineState, execute, flag, reg, with_reg, FLAGS};
use crate::types::Register;

verus! {

/// What a set carry flag stands for in a sum or difference: 2^32.
pub open spec fn carry_weight(c: bool) -> int {
    if c {
        0x1_0000_0000int
    } else {
        0int
    }
}

/// Bit `i` of word `w` (bit 0 is the least significant).
pub open spec fn bit(w: u32, i: u32) -> bool {
    (w >> i) & 1 == 1
}

/// Addition, of two registers or of a register and an immediate: the target
/// plus 2^32 when Carry is set is the exact sum, Zero tells whether the
/// target is zero, and memory is unchanged.
pub proof fn lemma_add_instructions(st: MachineState, t: Register, l: Register, r: Register, immediate: u32)
    requires
        well_sized(st),
        t != Register(FLAGS),
    ensures
        ({
            let a = reg(st.registers, l);
            let b = reg(st.registers, r);
            let after = execute(Opcode::AddTargetLhsRhs { t, l, r }, st);
            let after_imm = execute(Opcode::AddTargetSourceImmediate { t, s: l, immediate }, st);
            &&& reg(after.registers, t) + carry_weight(flag(after.registers, Flag::Carry)) == a + b
            &&& flag(after.registers, Flag::Zero) == (reg(after.registers, t) == 0)
            &&& after.memory == st.memory
            &&& reg(after_imm.registers, t) + carry_weight(flag(after_imm.registers, Flag::Carry)) == a
                + immediate
            &&& flag(after_imm.registers, Flag::Zero) == (reg(after_imm.registers, t) == 0)
            &&& after_imm.memory == st.memory
        }),
{
    let a = reg(st.registers, l);
    let b = reg(st.registers, r);
    lemma_sum_law(a, b);
    lemma_sum_law(a, immediate);
    let (v, c) = sum_with_carry(a, b);
    let (vi, ci) = sum_with_carry(a, immediate);
    lemma_result_flags(st.registers, t, v, c);
    lemma_result_flags(st.registers, t, vi, ci);
}

/// Subtraction, of two registers, of a register and an immediate, or with
/// the incoming Carry as borrow: the target minus 2^32 when Carry is set is
/// the exact difference, Zero tells whether the target is zero, and memory
/// is unchanged.
pub proof fn lemma_subtract_instructions(st: MachineState, t: Register, l: Register, r: Register, immediate: u32)
    requires
        well_sized(st),
        t != Register(FLAGS),
    ensures
        ({
            let a = reg(st.registers, l);
            let b = reg(st.registers, r);
            let borrow: int = if flag(st.registers, Flag::Carry) { 1 } else { 0 };
            let after = execute(Opcode::SubtractTargetLhsRhs { t, l, r }, st);
            let after_imm = execute(Opcode::SubtractTargetSourceImmediate { t, s: l, immediate }, st);
            let after_carry = execute(Opcode::SubtractWithCarryTargetLhsRhs { t, l, r }, st);
            &&& reg(after.registers, t) - carry_weight(flag(after.registers, Flag::Carry)) == a - b
            &&& flag(after.registers, Flag::Zero) == (reg(after.registers, t) == 0)
            &&& after.memory == st.memory
            &&& reg(after_imm.registers, t) - carry_weight(flag(after_imm.registers, Flag::Carry)) == a
                - immediate
            &&& flag(after_imm.registers, Flag::Zero) == (reg(after_imm.registers, t) == 0)
            &&& after_imm.memory == st.memory
            &&& reg(after_carry.registers, t) - carry_weight(flag(after_carry.registers, Flag::Carry))
                == a - b - borrow
            &&& flag(after_carry.registers, Flag::Zero) == (reg(after_carry.registers, t) == 0)
            &&& after_carry.memory == st.memory
        }),
{
    let a = reg(st.registers, l);
    let b = reg(st.registers, r);
    let cin = flag(st.registers, Flag::Carry);
    lemma_difference_law(a, b, false);
    lemma_difference_law(a, immediate, false);
    lemma_difference_law(a, b, cin);
    let (v, c) = difference_with_borrow(a, b, false);
    let (vi, ci) = difference_with_borrow(a, immediate, false);
    let (vc, cc) = difference_with_borrow(a, b, cin);
    lemma_result_flags(st.registers, t, v, c);
    lemma_result_flags(st.registers, t, vi, ci);
    lemma_result_flags(st.registers, t, vc, cc);
}

/// Multiplication: the high target times 2^32 plus the low target is the
/// exact product, Carry tells whether the high word is non-zero, Zero whether
/// the low word is zero, and memory is unchanged.
pub proof fn lemma_multiply_instruction(st: MachineState, h: Register, t: Register, l: Register, r: Register)
    requires
        well_sized(st),
        h != t,
        h != Register(FLAGS),
        t != Register(FLAGS),
    ensures
        ({
            let after = execute(Opcode::MultiplyHighLowLhsRhs { h, t, l, r }, st);
            let high = reg(after.registers, h);
            let low = reg(after.registers, t);
            &&& high * 0x1_0000_0000int + low == reg(st.registers, l) * reg(st.registers, r)
            &&& flag(after.registers, Flag::Carry) == (high != 0)
            &&& flag(after.registers, Flag::Zero) == (low == 0)
            &&& after.memory == st.memory
        }),
{
    let a = reg(st.registers, l);
    let b = reg(st.registers, r);
    lemma_product_law(a, b);
    let (high, low) = product_halves(a, b);
    let written = with_reg(with_reg(st.registers, h, high), t, low);
    let zeroed = crate::processor::with_flag(written, Flag::Zero, low == 0);
    lemma_flag_after_set(written, Flag::Zero, low == 0, Flag::Zero, h);
    lemma_flag_after_set(written, Flag::Zero, low == 0, Flag::Zero, t);
    lemma_flag_after_set(zeroed, Flag::Carry, high != 0, Flag::Zero, h);
    lemma_flag_after_set(zeroed, Flag::Carry, high != 0, Flag::Zero, t);
}

/// Division with remainder: for a non-zero divisor, quotient times divisor
/// plus remainder is the dividend and the remainder is below the divisor; a
/// zero divisor gives quotient zero, the dividend as remainder and sets
/// DivideByZero. Zero tells whether the quotient is zero; memory is
/// unchanged.
pub proof fn lemma_divmod_instruction(st: MachineState, d: Register, m: Register, l: Register, r: Register)
    requires
        well_sized(st),
        d != m,
        d != Register(FLAGS),
        m != Register(FLAGS),
    ensures
        ({
            let a = reg(st.registers, l);
            let b = reg(st.registers, r);
            let after = execute(Opcode::DivmodTargetModLhsRhs { d, m, l, r }, st);
            let q = reg(after.registers, d);
            let rem = reg(after.registers, m);
            &&& b != 0 ==> q * b + rem == a && rem < b
            &&& b == 0 ==> q == 0 && rem == a
            &&& flag(after.registers, Flag::DivideByZero) == (b == 0)
            &&& flag(after.registers, Flag::Zero) == (q == 0)
            &&& after.memory == st.memory
        }),
{
    let a = reg(st.registers, l);
    let b = reg(st.registers, r);
    lemma_quotient_law(a, b);
    let (q, rem) = quotient_remainder(a, b);
    let written = with_reg(with_reg(st.registers, d, q), m, rem);
    let zeroed = crate::processor::with_flag(written, Flag::Zero, q == 0);
    lemma_flag_after_set(written, Flag::Zero, q == 0, Flag::Zero, d);
    lemma_flag_after_set(written, Flag::Zero, q == 0, Flag::Zero, m);
    lemma_flag_after_set(zeroed, Flag::DivideByZero, b == 0, Flag::Zero, d);
    lemma_flag_after_set(zeroed, Flag::DivideByZero, b == 0, Flag::Zero, m);
}

/// The bitwise instructions: each bit of the target is the and, or,
/// exclusive or of the operands' bits, or the negation of the source's bit;
/// Zero tells whether the target is zero; memory is unchanged.
pub proof fn lemma_bitwise_instructions(st: MachineState, t: Register, l: Register, r: Register, i: u32)
    requires
        well_sized(st),
        t != Register(FLAGS),
        i < 32,
    ensures
        ({
            let a = reg(st.registers, l);
            let b = reg(st.registers, r);
            let and = execute(Opcode::AndTargetLhsRhs { t, l, r }, st);
            let or = execute(Opcode::OrTargetLhsRhs { t, l, r }, st);
            let xor = execute(Opcode::XorTargetLhsRhs { t, l, r }, st);
            let not = execute(Opcode::NotTargetSource { t, s: l }, st);
            &&& bit(reg(and.registers, t), i) == (bit(a, i) && bit(b, i))
            &&& bit(reg(or.registers, t), i) == (bit(a, i) || bit(b, i))
            &&& bit(reg(xor.registers, t), i) == (bit(a, i) != bit(b, i))
            &&& bit(reg(not.registers, t), i) == !bit(a, i)
            &&& flag(and.registers, Flag::Zero) == (reg(and.registers, t) == 0)
            &&& flag(or.registers, Flag::Zero) == (reg(or.registers, t) == 0)
            &&& flag(xor.registers, Flag::Zero) == (reg(xor.registers, t) == 0)
            &&& flag(not.registers, Flag::Zero) == (reg(not.registers, t) == 0)
            &&& and.memory == st.memory && or.memory == st.memory
            &&& xor.memory == st.memory && not.memory == st.memory
        }),
{
    let a = reg(st.registers, l);
    let b = reg(st.registers, r);
    lemma_result_flags(st.registers, t, a & b, false);
    lemma_result_flags(st.registers, t, a | b, false);
    lemma_result_flags(st.registers, t, a ^ b, false);
    lemma_result_flags(st.registers, t, !a, false);
    assert((((a & b) >> i) & 1 == 1) == (((a >> i) & 1 == 1) && ((b >> i) & 1 == 1))) by (bit_vector)
        requires
            i < 32,
    ;
    assert((((a | b) >> i) & 1 == 1) == (((a >> i) & 1 == 1) || ((b >> i) & 1 == 1))) by (bit_vector)
        requires
            i < 32,
    ;
    assert((((a ^ b) >> i) & 1 == 1) == (((a >> i) & 1 == 1) != ((b >> i) & 1 == 1))) by (bit_vector)
        requires
            i < 32,
    ;
    assert((((!a) >> i) & 1 == 1) == !((a >> i) & 1 == 1)) by (bit_vector)
        requires
            i < 32,
    ;
}

/// The shift instructions: below the word width the target is `a << b` or
/// `a >> b`; a left shift carries exactly when `a` exceeds `u32::MAX >> b`,
/// a right shift exactly when shifting back does not restore `a`; from the
/// word width on the target is zero and Carry tells whether `a` was non-zero.
/// Zero tells whether the target is zero; memory is unchanged.
pub proof fn lemma_shift_instructions(st: MachineState, t: Register, l: Register, r: Register)
    requires
        well_sized(st),
        t != Register(FLAGS),
    ensures
        ({
            let a = reg(st.registers, l);
            let b = reg(st.registers, r);
            let left = execute(Opcode::LeftShiftTargetLhsRhs { t, l, r }, st);
            let right = execute(Opcode::RightShiftTargetLhsRhs { t, l, r }, st);
            &&& b < 32 ==> reg(left.registers, t) == a << b && flag(left.registers, Flag::Carry) == (a
                > (u32::MAX >> b))
            &&& b < 32 ==> reg(right.registers, t) == a >> b && flag(right.registers, Flag::Carry) == (((a
                >> b) << b) != a)
            &&& b >= 32 ==> reg(left.registers, t) == 0 && flag(left.registers, Flag::Carry) == (a != 0)
            &&& b >= 32 ==> reg(right.registers, t) == 0 && flag(right.registers, Flag::Carry) == (a != 0)
            &&& flag(left.registers, Flag::Zero) == (reg(left.registers, t) == 0)
            &&& flag(right.registers, Flag::Zero) == (reg(right.registers, t) == 0)
            &&& left.memory == st.memory && right.memory == st.memory
        }),
{
    let a = reg(st.registers, l);
    let b = reg(st.registers, r);
    lemma_shift_left_law(a, b);
    lemma_shift_right_law(a, b);
    let (vl, cl) = crate::alu::shifted_left(a, b);
    let (vr, cr) = crate::alu::shifted_right(a, b);
    lemma_result_flags(st.registers, t, vl, cl);
    lemma_result_flags(st.registers, t, vr, cr);
}

/// Comparison: the target is zero exactly for equal operands, one exactly
/// when the left operand is greater and `u32::MAX` exactly when it is
/// smaller; Zero tells whether the operands are equal; memory is unchanged.
pub proof fn lemma_compare_instruction(st: MachineState, t: Register, l: Register, r: Register)
    requires
        well_sized(st),
        t != Register(FLAGS),
    ensures
        ({
            let a = reg(st.registers, l);
            let b = reg(st.registers, r);
            let after = execute(Opcode::CompareTargetLhsRhs { t, l, r }, st);
            let v = reg(after.registers, t);
            &&& (v == 0) == (a == b)
            &&& (v == 1) == (a > b)
            &&& (v == u32::MAX) == (a < b)
            &&& flag(after.registers, Flag::Zero) == (a == b)
            &&& after.memory == st.memory
        }),
{
    let a = reg(st.registers, l);
    let b = reg(st.registers, r);
    lemma_comparison_law(a, b);
    lemma_result_flags(st.registers, t, crate::alu::comparison(a, b), false);
}

/// The register moves: an immediate, or the value of the source register,
/// lands in the target; memory is unchanged.
pub proof fn lemma_register_moves(st: MachineState, t: Register, s: Register, immediate: u32)
    requires
        well_sized(st),
    ensures
        reg(execute(Opcode::MoveRegisterImmediate { r: t, immediate }, st).registers, t) == immediate,
        reg(execute(Opcode::MoveTargetSource { t, s }, st).registers, t) == reg(st.registers, s),
        execute(Opcode::MoveRegisterImmediate { r: t, immediate }, st).memory == st.memory,
        execute(Opcode::MoveTargetSource { t, s }, st).memory == st.memory,
{
}

/// Storing a register at an address inside memory puts its value there, and
/// loading from that address gives the value back, whether the address is
/// an immediate or held in a pointer register. Stores change no register.
pub proof fn lemma_store_then_load(st: MachineState, address: u32, s: Register, p: Register, t: Register)
    requires
        well_sized(st),
        address + 4 <= st.memory.len(),
        reg(st.registers, p) + 4 <= st.memory.len(),
    ensures
        ({
            let v = reg(st.registers, s);
            let stored = execute(Opcode::MoveAddressRegister { address, r: s }, st);
            let loaded = execute(Opcode::MoveRegisterAddress { r: t, address }, stored);
            let stored_p = execute(Opcode::MovePointerSource { p, s }, st);
            let loaded_p = execute(Opcode::MoveTargetPointer { t, p }, stored_p);
            &&& word_at(stored.memory, address as int) == v
            &&& stored.registers == st.registers
            &&& reg(loaded.registers, t) == v
            &&& word_at(stored_p.memory, reg(st.registers, p) as int) == v
            &&& stored_p.registers == st.registers
            &&& reg(loaded_p.registers, t) == v
        }),
{
    let v = reg(st.registers, s);
    lemma_read_data_after_write(st.memory, address as int, v);
    lemma_read_data_after_write(st.memory, reg(st.registers, p) as int, v);
}

} // verus!
