use vstd::prelude::*;
use crate::types::{Address, Instruction, Register, Word};

verus! {

/// The instructions of the machine, with their operands.
///
/// Letters name the operand registers: `t` target, `s` source, `l` and `r`
/// the left and right operands, `p` a register that holds an address, `h`
/// and `t` the high and low halves of a product, `d` and `m` quotient and
/// remainder.
#[derive(Clone, Copy, PartialEq, Eq, Structural, Debug)]
pub enum Opcode {
    MoveRegisterImmediate { r: Register, immediate: Word },
    MoveRegisterAddress { r: Register, address: Address },
    MoveTargetSource { t: Register, s: Register },
    MoveAddressRegister { address: Address, r: Register },
    MoveTargetPointer { t: Register, p: Register },
    MovePointerSource { p: Register, s: Register },
    HaltAndCatchFire {},
    AddTargetLhsRhs { t: Register, l: Register, r: Register },
    SubtractTargetLhsRhs { t: Register, l: Register, r: Register },
    SubtractWithCarryTargetLhsRhs { t: Register, l: Register, r: Register },
    MultiplyHighLowLhsRhs { h: Register, t: Register, l: Register, r: Register },
    DivmodTargetModLhsRhs { d: Register, m: Register, l: Register, r: Register },
    AndTargetLhsRhs { t: Register, l: Register, r: Register },
    OrTargetLhsRhs { t: Register, l: Register, r: Register },
    XorTargetLhsRhs { t: Register, l: Register, r: Register },
    NotTargetSource { t: Register, s: Register },
    LeftShiftTargetLhsRhs { t: Register, l: Register, r: Register },
    RightShiftTargetLhsRhs { t: Register, l: Register, r: Register },
    AddTargetSourceImmediate { t: Register, s: Register, immediate: Word },
    SubtractTargetSourceImmediate { t: Register, s: Register, immediate: Word },
    CompareTargetLhsRhs { t: Register, l: Register, r: Register },
    PushRegister { r: Register },
    PopRegister { r: Register },
}

/// The opcode number of `HaltAndCatchFire`.
pub const HALT_AND_CATCH_FIRE: u16 = 0x0006;

/// Lays out an instruction: the opcode number in bits 48..64, register
/// operands in bits 40..48, 32..40, 24..32 and 16..24, an immediate in bits
/// 0..32. No instruction uses both the last two register slots and the
/// immediate.
pub open spec fn pack(code: u16, a: u8, b: u8, c: u8, d: u8, imm: u32) -> Instruction {
    ((code as u64) << 48u64) | ((a as u64) << 40u64) | ((b as u64) << 32u64) | ((c as u64) << 24u64)
        | ((d as u64) << 16u64) | (imm as u64)
}

/// The opcode number field of an instruction.
pub open spec fn opcode_field(i: Instruction) -> u16 {
    (i >> 48u64) as u16
}

/// The first register operand field.
pub open spec fn first_register(i: Instruction) -> Register {
    Register((i >> 40u64) as u8)
}

/// The second register operand field.
pub open spec fn second_register(i: Instruction) -> Register {
    Register((i >> 32u64) as u8)
}

/// The third register operand field.
pub open spec fn third_register(i: Instruction) -> Register {
    Register((i >> 24u64) as u8)
}

/// The fourth register operand field.
pub open spec fn fourth_register(i: Instruction) -> Register {
    Register((i >> 16u64) as u8)
}

/// The immediate (or address) field.
pub open spec fn immediate_field(i: Instruction) -> Word {
    i as u32
}

/// The instruction word of an opcode.
pub open spec fn encode(op: Opcode) -> Instruction {
    match op {
        Opcode::MoveRegisterImmediate { r, immediate } => pack(0x0000, r.0, 0, 0, 0, immediate),
        Opcode::MoveRegisterAddress { r, address } => pack(0x0001, r.0, 0, 0, 0, address),
        Opcode::MoveTargetSource { t, s } => pack(0x0002, t.0, s.0, 0, 0, 0),
        Opcode::MoveAddressRegister { address, r } => pack(0x0003, r.0, 0, 0, 0, address),
        Opcode::MoveTargetPointer { t, p } => pack(0x0004, t.0, p.0, 0, 0, 0),
        Opcode::MovePointerSource { p, s } => pack(0x0005, p.0, s.0, 0, 0, 0),
        Opcode::HaltAndCatchFire {  } => pack(HALT_AND_CATCH_FIRE, 0, 0, 0, 0, 0),
        Opcode::AddTargetLhsRhs { t, l, r } => pack(0x0007, t.0, l.0, r.0, 0, 0),
        Opcode::SubtractTargetLhsRhs { t, l, r } => pack(0x0008, t.0, l.0, r.0, 0, 0),
        Opcode::SubtractWithCarryTargetLhsRhs { t, l, r } => pack(0x0009, t.0, l.0, r.0, 0, 0),
        Opcode::MultiplyHighLowLhsRhs { h, t, l, r } => pack(0x000A, h.0, t.0, l.0, r.0, 0),
        Opcode::DivmodTargetModLhsRhs { d, m, l, r } => pack(0x000B, d.0, m.0, l.0, r.0, 0),
        Opcode::AndTargetLhsRhs { t, l, r } => pack(0x000C, t.0, l.0, r.0, 0, 0),
        Opcode::OrTargetLhsRhs { t, l, r } => pack(0x000D, t.0, l.0, r.0, 0, 0),
        Opcode::XorTargetLhsRhs { t, l, r } => pack(0x000E, t.0, l.0, r.0, 0, 0),
        Opcode::NotTargetSource { t, s } => pack(0x000F, t.0, s.0, 0, 0, 0),
        Opcode::LeftShiftTargetLhsRhs { t, l, r } => pack(0x0010, t.0, l.0, r.0, 0, 0),
        Opcode::RightShiftTargetLhsRhs { t, l, r } => pack(0x0011, t.0, l.0, r.0, 0, 0),
        Opcode::AddTargetSourceImmediate { t, s, immediate } => pack(
            0x0012,
            t.0,
            s.0,
            0,
            0,
            immediate,
        ),
        Opcode::SubtractTargetSourceImmediate { t, s, immediate } => pack(
            0x0013,
            t.0,
            s.0,
            0,
            0,
            immediate,
        ),
        Opcode::CompareTargetLhsRhs { t, l, r } => pack(0x0014, t.0, l.0, r.0, 0, 0),
        Opcode::PushRegister { r } => pack(0x0015, r.0, 0, 0, 0, 0),
        Opcode::PopRegister { r } => pack(0x0016, r.0, 0, 0, 0, 0),
    }
}

/// The opcode an instruction word stands for, or `None` where its opcode
/// number is not one of the machine's. Operand bits that an opcode does not
/// use are ignored.
pub open spec fn decode(i: Instruction) -> Option<Opcode> {
    let a = first_register(i);
    let b = second_register(i);
    let c = third_register(i);
    let d = fourth_register(i);
    let imm = immediate_field(i);
    match opcode_field(i) {
        0x0000u16 => Some(Opcode::MoveRegisterImmediate { r: a, immediate: imm }),
        0x0001u16 => Some(Opcode::MoveRegisterAddress { r: a, address: imm }),
        0x0002u16 => Some(Opcode::MoveTargetSource { t: a, s: b }),
        0x0003u16 => Some(Opcode::MoveAddressRegister { address: imm, r: a }),
        0x0004u16 => Some(Opcode::MoveTargetPointer { t: a, p: b }),
        0x0005u16 => Some(Opcode::MovePointerSource { p: a, s: b }),
        0x0006u16 => Some(Opcode::HaltAndCatchFire {  }),
        0x0007u16 => Some(Opcode::AddTargetLhsRhs { t: a, l: b, r: c }),
        0x0008u16 => Some(Opcode::SubtractTargetLhsRhs { t: a, l: b, r: c }),
        0x0009u16 => Some(Opcode::SubtractWithCarryTargetLhsRhs { t: a, l: b, r: c }),
        0x000Au16 => Some(Opcode::MultiplyHighLowLhsRhs { h: a, t: b, l: c, r: d }),
        0x000Bu16 => Some(Opcode::DivmodTargetModLhsRhs { d: a, m: b, l: c, r: d }),
        0x000Cu16 => Some(Opcode::AndTargetLhsRhs { t: a, l: b, r: c }),
        0x000Du16 => Some(Opcode::OrTargetLhsRhs { t: a, l: b, r: c }),
        0x000Eu16 => Some(Opcode::XorTargetLhsRhs { t: a, l: b, r: c }),
        0x000Fu16 => Some(Opcode::NotTargetSource { t: a, s: b }),
        0x0010u16 => Some(Opcode::LeftShiftTargetLhsRhs { t: a, l: b, r: c }),
        0x0011u16 => Some(Opcode::RightShiftTargetLhsRhs { t: a, l: b, r: c }),
        0x0012u16 => Some(Opcode::AddTargetSourceImmediate { t: a, s: b, immediate: imm }),
        0x0013u16 => Some(Opcode::SubtractTargetSourceImmediate { t: a, s: b, immediate: imm }),
        0x0014u16 => Some(Opcode::CompareTargetLhsRhs { t: a, l: b, r: c }),
        0x0015u16 => Some(Opcode::PushRegister { r: a }),
        0x0016u16 => Some(Opcode::PopRegister { r: a }),
        _ => None,
    }
}

fn pack_fields(code: u16, a: u8, b: u8, c: u8, d: u8, imm: u32) -> (i: Instruction)
    ensures
        i == pack(code, a, b, c, d, imm),
{
    ((code as u64) << 48u64) | ((a as u64) << 40u64) | ((b as u64) << 32u64) | ((c as u64) << 24u64)
        | ((d as u64) << 16u64) | (imm as u64)
}

impl Opcode {
    /// The instruction word that encodes this opcode.
    pub fn as_instruction(&self) -> (i: Instruction)
        ensures
            i == encode(*self),
    {
        match *self {
            Opcode::MoveRegisterImmediate { r, immediate } => pack_fields(0x0000, r.0, 0, 0, 0, immediate),
            Opcode::MoveRegisterAddress { r, address } => pack_fields(0x0001, r.0, 0, 0, 0, address),
            Opcode::MoveTargetSource { t, s } => pack_fields(0x0002, t.0, s.0, 0, 0, 0),
            Opcode::MoveAddressRegister { address, r } => pack_fields(0x0003, r.0, 0, 0, 0, address),
            Opcode::MoveTargetPointer { t, p } => pack_fields(0x0004, t.0, p.0, 0, 0, 0),
            Opcode::MovePointerSource { p, s } => pack_fields(0x0005, p.0, s.0, 0, 0, 0),
            Opcode::HaltAndCatchFire {  } => pack_fields(HALT_AND_CATCH_FIRE, 0, 0, 0, 0, 0),
            Opcode::AddTargetLhsRhs { t, l, r } => pack_fields(0x0007, t.0, l.0, r.0, 0, 0),
            Opcode::SubtractTargetLhsRhs { t, l, r } => pack_fields(0x0008, t.0, l.0, r.0, 0, 0),
            Opcode::SubtractWithCarryTargetLhsRhs { t, l, r } => pack_fields(0x0009, t.0, l.0, r.0, 0, 0),
            Opcode::MultiplyHighLowLhsRhs { h, t, l, r } => pack_fields(0x000A, h.0, t.0, l.0, r.0, 0),
            Opcode::DivmodTargetModLhsRhs { d, m, l, r } => pack_fields(0x000B, d.0, m.0, l.0, r.0, 0),
            Opcode::AndTargetLhsRhs { t, l, r } => pack_fields(0x000C, t.0, l.0, r.0, 0, 0),
            Opcode::OrTargetLhsRhs { t, l, r } => pack_fields(0x000D, t.0, l.0, r.0, 0, 0),
            Opcode::XorTargetLhsRhs { t, l, r } => pack_fields(0x000E, t.0, l.0, r.0, 0, 0),
            Opcode::NotTargetSource { t, s } => pack_fields(0x000F, t.0, s.0, 0, 0, 0),
            Opcode::LeftShiftTargetLhsRhs { t, l, r } => pack_fields(0x0010, t.0, l.0, r.0, 0, 0),
            Opcode::RightShiftTargetLhsRhs { t, l, r } => pack_fields(0x0011, t.0, l.0, r.0, 0, 0),
            Opcode::AddTargetSourceImmediate { t, s, immediate } => pack_fields(0x0012, t.0, s.0, 0, 0, immediate),
            Opcode::SubtractTargetSourceImmediate { t, s, immediate } => pack_fields(0x0013, t.0, s.0, 0, 0, immediate),
            Opcode::CompareTargetLhsRhs { t, l, r } => pack_fields(0x0014, t.0, l.0, r.0, 0, 0),
            Opcode::PushRegister { r } => pack_fields(0x0015, r.0, 0, 0, 0, 0),
            Opcode::PopRegister { r } => pack_fields(0x0016, r.0, 0, 0, 0, 0),
        }
    }

    /// The opcode that an instruction word stands for, or `None` where its
    /// opcode number is unknown.
    pub fn decode(i: Instruction) -> (op: Option<Opcode>)
        ensures
            op == decode(i),
    {
        let a = Register((i >> 40u64) as u8);
        let b = Register((i >> 32u64) as u8);
        let c = Register((i >> 24u64) as u8);
        let d = Register((i >> 16u64) as u8);
        let imm = i as u32;
        match (i >> 48u64) as u16 {
            0x0000u16 => Some(Opcode::MoveRegisterImmediate { r: a, immediate: imm }),
            0x0001u16 => Some(Opcode::MoveRegisterAddress { r: a, address: imm }),
            0x0002u16 => Some(Opcode::MoveTargetSource { t: a, s: b }),
            0x0003u16 => Some(Opcode::MoveAddressRegister { address: imm, r: a }),
            0x0004u16 => Some(Opcode::MoveTargetPointer { t: a, p: b }),
            0x0005u16 => Some(Opcode::MovePointerSource { p: a, s: b }),
            0x0006u16 => Some(Opcode::HaltAndCatchFire {  }),
            0x0007u16 => Some(Opcode::AddTargetLhsRhs { t: a, l: b, r: c }),
            0x0008u16 => Some(Opcode::SubtractTargetLhsRhs { t: a, l: b, r: c }),
            0x0009u16 => Some(Opcode::SubtractWithCarryTargetLhsRhs { t: a, l: b, r: c }),
            0x000Au16 => Some(Opcode::MultiplyHighLowLhsRhs { h: a, t: b, l: c, r: d }),
            0x000Bu16 => Some(Opcode::DivmodTargetModLhsRhs { d: a, m: b, l: c, r: d }),
            0x000Cu16 => Some(Opcode::AndTargetLhsRhs { t: a, l: b, r: c }),
            0x000Du16 => Some(Opcode::OrTargetLhsRhs { t: a, l: b, r: c }),
            0x000Eu16 => Some(Opcode::XorTargetLhsRhs { t: a, l: b, r: c }),
            0x000Fu16 => Some(Opcode::NotTargetSource { t: a, s: b }),
            0x0010u16 => Some(Opcode::LeftShiftTargetLhsRhs { t: a, l: b, r: c }),
            0x0011u16 => Some(Opcode::RightShiftTargetLhsRhs { t: a, l: b, r: c }),
            0x0012u16 => Some(Opcode::AddTargetSourceImmediate { t: a, s: b, immediate: imm }),
            0x0013u16 => Some(Opcode::SubtractTargetSourceImmediate { t: a, s: b, immediate: imm }),
            0x0014u16 => Some(Opcode::CompareTargetLhsRhs { t: a, l: b, r: c }),
            0x0015u16 => Some(Opcode::PushRegister { r: a }),
            0x0016u16 => Some(Opcode::PopRegister { r: a }),
            _ => None,
        }
    }
}

proof fn lemma_unpack_with_immediate(code: u16, a: u8, b: u8, imm: u32)
    ensures
        opcode_field(pack(code, a, b, 0, 0, imm)) == code,
        first_register(pack(code, a, b, 0, 0, imm)) == Register(a),
        second_register(pack(code, a, b, 0, 0, imm)) == Register(b),
        immediate_field(pack(code, a, b, 0, 0, imm)) == imm,
{
    let i = pack(code, a, b, 0, 0, imm);
    assert(((((code as u64) << 48u64) | ((a as u64) << 40u64) | ((b as u64) << 32u64) | ((0u8 as u64)
        << 24u64) | ((0u8 as u64) << 16u64) | (imm as u64)) >> 48u64) as u16 == code) by (bit_vector);
    assert(((((code as u64) << 48u64) | ((a as u64) << 40u64) | ((b as u64) << 32u64) | ((0u8 as u64)
        << 24u64) | ((0u8 as u64) << 16u64) | (imm as u64)) >> 40u64) as u8 == a) by (bit_vector);
    assert(((((code as u64) << 48u64) | ((a as u64) << 40u64) | ((b as u64) << 32u64) | ((0u8 as u64)
        << 24u64) | ((0u8 as u64) << 16u64) | (imm as u64)) >> 32u64) as u8 == b) by (bit_vector);
    assert((((code as u64) << 48u64) | ((a as u64) << 40u64) | ((b as u64) << 32u64) | ((0u8 as u64)
        << 24u64) | ((0u8 as u64) << 16u64) | (imm as u64)) as u32 == imm) by (bit_vector);
}

proof fn lemma_unpack_registers(code: u16, a: u8, b: u8, c: u8, d: u8)
    ensures
        opcode_field(pack(code, a, b, c, d, 0)) == code,
        first_register(pack(code, a, b, c, d, 0)) == Register(a),
        second_register(pack(code, a, b, c, d, 0)) == Register(b),
        third_register(pack(code, a, b, c, d, 0)) == Register(c),
        fourth_register(pack(code, a, b, c, d, 0)) == Register(d),
{
    assert(((((code as u64) << 48u64) | ((a as u64) << 40u64) | ((b as u64) << 32u64) | ((c as u64)
        << 24u64) | ((d as u64) << 16u64) | (0u32 as u64)) >> 48u64) as u16 == code) by (bit_vector);
    assert(((((code as u64) << 48u64) | ((a as u64) << 40u64) | ((b as u64) << 32u64) | ((c as u64)
        << 24u64) | ((d as u64) << 16u64) | (0u32 as u64)) >> 40u64) as u8 == a) by (bit_vector);
    assert(((((code as u64) << 48u64) | ((a as u64) << 40u64) | ((b as u64) << 32u64) | ((c as u64)
        << 24u64) | ((d as u64) << 16u64) | (0u32 as u64)) >> 32u64) as u8 == b) by (bit_vector);
    assert(((((code as u64) << 48u64) | ((a as u64) << 40u64) | ((b as u64) << 32u64) | ((c as u64)
        << 24u64) | ((d as u64) << 16u64) | (0u32 as u64)) >> 24u64) as u8 == c) by (bit_vector);
    assert(((((code as u64) << 48u64) | ((a as u64) << 40u64) | ((b as u64) << 32u64) | ((c as u64)
        << 24u64) | ((d as u64) << 16u64) | (0u32 as u64)) >> 16u64) as u8 == d) by (bit_vector);
}

/// Decoding the encoding of an opcode gives the opcode back.
pub proof fn lemma_decode_encode(op: Opcode)
    ensures
        decode(encode(op)) == Some(op),
        op is HaltAndCatchFire ==> encode(op) >> 48u64 == 6,
{
    match op {
        Opcode::MoveRegisterImmediate { r, immediate } => lemma_unpack_with_immediate(0x0000, r.0, 0, immediate),
        Opcode::MoveRegisterAddress { r, address } => lemma_unpack_with_immediate(0x0001, r.0, 0, address),
        Opcode::MoveTargetSource { t, s } => lemma_unpack_registers(0x0002, t.0, s.0, 0, 0),
        Opcode::MoveAddressRegister { address, r } => lemma_unpack_with_immediate(0x0003, r.0, 0, address),
        Opcode::MoveTargetPointer { t, p } => lemma_unpack_registers(0x0004, t.0, p.0, 0, 0),
        Opcode::MovePointerSource { p, s } => lemma_unpack_registers(0x0005, p.0, s.0, 0, 0),
        Opcode::HaltAndCatchFire {  } => {
            lemma_unpack_registers(HALT_AND_CATCH_FIRE, 0, 0, 0, 0);
            let i = encode(op);
            assert((i >> 48u64) == ((i >> 48u64) as u16) as u64) by (bit_vector);
        },
        Opcode::AddTargetLhsRhs { t, l, r } => lemma_unpack_registers(0x0007, t.0, l.0, r.0, 0),
        Opcode::SubtractTargetLhsRhs { t, l, r } => lemma_unpack_registers(0x0008, t.0, l.0, r.0, 0),
        Opcode::SubtractWithCarryTargetLhsRhs { t, l, r } => lemma_unpack_registers(0x0009, t.0, l.0, r.0, 0),
        Opcode::MultiplyHighLowLhsRhs { h, t, l, r } => lemma_unpack_registers(0x000A, h.0, t.0, l.0, r.0),
        Opcode::DivmodTargetModLhsRhs { d, m, l, r } => lemma_unpack_registers(0x000B, d.0, m.0, l.0, r.0),
        Opcode::AndTargetLhsRhs { t, l, r } => lemma_unpack_registers(0x000C, t.0, l.0, r.0, 0),
        Opcode::OrTargetLhsRhs { t, l, r } => lemma_unpack_registers(0x000D, t.0, l.0, r.0, 0),
        Opcode::XorTargetLhsRhs { t, l, r } => lemma_unpack_registers(0x000E, t.0, l.0, r.0, 0),
        Opcode::NotTargetSource { t, s } => lemma_unpack_registers(0x000F, t.0, s.0, 0, 0),
        Opcode::LeftShiftTargetLhsRhs { t, l, r } => lemma_unpack_registers(0x0010, t.0, l.0, r.0, 0),
        Opcode::RightShiftTargetLhsRhs { t, l, r } => lemma_unpack_registers(0x0011, t.0, l.0, r.0, 0),
        Opcode::AddTargetSourceImmediate { t, s, immediate } => lemma_unpack_with_immediate(0x0012, t.0, s.0, immediate),
        Opcode::SubtractTargetSourceImmediate { t, s, immediate } => lemma_unpack_with_immediate(0x0013, t.0, s.0, immediate),
        Opcode::CompareTargetLhsRhs { t, l, r } => lemma_unpack_registers(0x0014, t.0, l.0, r.0, 0),
        Opcode::PushRegister { r } => lemma_unpack_registers(0x0015, r.0, 0, 0, 0),
        Opcode::PopRegister { r } => lemma_unpack_registers(0x0016, r.0, 0, 0, 0),
    }
}

} // verus!
