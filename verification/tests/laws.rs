use bss2k::machine::Machine;
use bss2k::memory::{Memory, MEMORY_SIZE};
use bss2k::opcodes::Opcode;
use bss2k::processor::{Flag, Processor, ENTRY_POINT, FLAGS, INSTRUCTION_POINTER, STACK_POINTER, STACK_START};
use bss2k::terminal::{TERMINAL_BUFFER_START, TERMINAL_HEIGHT, TERMINAL_WIDTH};
use bss2k::types::{Register, INSTRUCTION_SIZE};

fn all_opcodes() -> Vec<Opcode> {
    let (a, b, c, d) = (Register(0x01), Register(0xFE), Register(0x80), Register(0x7F));
    vec![
        Opcode::MoveRegisterImmediate { r: a, immediate: 0xDEAD_BEEF },
        Opcode::MoveRegisterAddress { r: b, address: 0x0012_3456 },
        Opcode::MoveTargetSource { t: a, s: b },
        Opcode::MoveAddressRegister { address: 0xFFFF_FFFF, r: c },
        Opcode::MoveTargetPointer { t: c, p: d },
        Opcode::MovePointerSource { p: d, s: a },
        Opcode::HaltAndCatchFire {},
        Opcode::AddTargetLhsRhs { t: a, l: b, r: c },
        Opcode::SubtractTargetLhsRhs { t: b, l: c, r: d },
        Opcode::SubtractWithCarryTargetLhsRhs { t: c, l: d, r: a },
        Opcode::MultiplyHighLowLhsRhs { h: a, t: b, l: c, r: d },
        Opcode::DivmodTargetModLhsRhs { d: d, m: c, l: b, r: a },
        Opcode::AndTargetLhsRhs { t: a, l: a, r: a },
        Opcode::OrTargetLhsRhs { t: b, l: b, r: b },
        Opcode::XorTargetLhsRhs { t: c, l: c, r: c },
        Opcode::NotTargetSource { t: d, s: a },
        Opcode::LeftShiftTargetLhsRhs { t: a, l: b, r: c },
        Opcode::RightShiftTargetLhsRhs { t: d, l: c, r: b },
        Opcode::AddTargetSourceImmediate { t: a, s: b, immediate: 7 },
        Opcode::SubtractTargetSourceImmediate { t: c, s: d, immediate: 0x8000_0000 },
        Opcode::CompareTargetLhsRhs { t: a, l: b, r: d },
        Opcode::PushRegister { r: d },
        Opcode::PopRegister { r: c },
    ]
}

#[test]
fn decoding_an_encoded_opcode_gives_it_back() {
    for op in all_opcodes() {
        assert_eq!(Opcode::decode(op.as_instruction()), Some(op));
    }
}

#[test]
fn halt_and_catch_fire_has_opcode_number_six() {
    assert_eq!(Opcode::HaltAndCatchFire {}.as_instruction(), 0x0006_0000_0000_0000);
    assert_eq!(
        Opcode::AddTargetLhsRhs { t: Register(1), l: Register(2), r: Register(3) }.as_instruction(),
        0x0007_0102_0300_0000
    );
    assert_eq!(
        Opcode::MoveRegisterImmediate { r: Register(0x0A), immediate: 0xABCD_1234 }.as_instruction(),
        0x0000_0A00_ABCD_1234
    );
}

#[test]
fn unknown_opcode_numbers_do_not_decode() {
    assert_eq!(Opcode::decode(0x0017_0000_0000_0000), None);
    assert_eq!(Opcode::decode(0xFFFF_FFFF_FFFF_FFFF), None);
}

#[test]
fn an_unknown_instruction_leaves_the_machine_as_it_is() {
    let mut machine = Machine::new();
    machine.memory.write_instruction(ENTRY_POINT, 0xFFFF_0000_0000_0000);
    machine.processor.set_register(Register(3), 33);
    machine.make_tick();
    assert_eq!(machine.processor.get_register(Register(INSTRUCTION_POINTER)), ENTRY_POINT);
    assert_eq!(machine.processor.get_register(Register(3)), 33);
    assert!(!machine.is_halted());
}

#[test]
fn a_halted_machine_stays_halted() {
    let mut machine = Machine::new();
    assert!(!machine.is_halted());
    machine
        .memory
        .write_instruction(ENTRY_POINT, Opcode::HaltAndCatchFire {}.as_instruction());
    machine.processor.set_register(Register(9), 99);
    assert!(machine.is_halted());
    for _ in 0..10 {
        machine.make_tick();
        assert!(machine.is_halted());
    }
    assert_eq!(machine.processor.get_register(Register(INSTRUCTION_POINTER)), ENTRY_POINT);
    assert_eq!(machine.processor.get_register(Register(9)), 99);
}

#[test]
fn a_new_machine_starts_at_the_entry_point_with_clear_flags() {
    let machine = Machine::new();
    assert_eq!(machine.processor.get_register(Register(INSTRUCTION_POINTER)), ENTRY_POINT);
    assert_eq!(machine.processor.get_stack_pointer(), STACK_START);
    assert_eq!(machine.processor.get_register(Register(STACK_POINTER)), STACK_START);
    assert!(!machine.processor.get_flag(Flag::Zero));
    assert!(!machine.processor.get_flag(Flag::Carry));
    assert!(!machine.processor.get_flag(Flag::DivideByZero));
    assert_eq!(machine.processor.get_register(Register(0)), 0);
    assert_eq!(machine.memory.read_data(0x1234), 0);
}

#[test]
fn setting_a_flag_keeps_the_others() {
    let mut processor = Processor::new();
    processor.set_flag(Flag::Carry, true);
    processor.set_flag(Flag::DivideByZero, true);
    processor.set_flag(Flag::Zero, true);
    processor.set_flag(Flag::Carry, false);
    assert!(processor.get_flag(Flag::Zero));
    assert!(!processor.get_flag(Flag::Carry));
    assert!(processor.get_flag(Flag::DivideByZero));
    assert_eq!(processor.get_register(Register(FLAGS)), 0b101);
}

#[test]
fn words_are_stored_big_endian() {
    let mut memory = Memory::new();
    memory.write_data(0x10, 0x1122_3344);
    assert_eq!(memory.read_data(0x10), 0x1122_3344);
    assert_eq!(memory.read_data(0x11), 0x2233_4400);
    assert_eq!(memory.read_data(0x0E), 0x0000_1122);
    memory.write_instruction(0x40, 0x0102_0304_0506_0708);
    assert_eq!(memory.read_instruction(0x40), 0x0102_0304_0506_0708);
    assert_eq!(memory.read_data(0x44), 0x0506_0708);
}

#[test]
fn a_write_leaves_other_words_alone() {
    let mut memory = Memory::new();
    memory.write_data(0x100, 7);
    memory.write_data(0x104, 8);
    memory.write_data(0xFC, 6);
    assert_eq!(memory.read_data(0x100), 7);
    assert_eq!(memory.read_data(0x104), 8);
    assert_eq!(memory.read_data(0xFC), 6);
}

#[test]
fn memory_beyond_its_end_reads_zero_and_drops_writes() {
    let mut memory = Memory::new();
    memory.write_data(MEMORY_SIZE - 2, 0xAABB_CCDD);
    assert_eq!(memory.read_data(MEMORY_SIZE - 2), 0xAABB_0000);
    memory.write_data(0xFFFF_FFFE, 0x1234_5678);
    assert_eq!(memory.read_data(0xFFFF_FFFE), 0);
    assert_eq!(memory.read_instruction(MEMORY_SIZE - 4), 0x0000_AABB_0000_0000);
}

#[test]
fn loading_bytes_places_them_in_order() {
    let mut memory = Memory::new();
    memory.write_bytes(0x20, &[0x00, 0x00, 0x0A, 0x00, 0x00, 0x00, 0x00, 0x2A]);
    assert_eq!(memory.read_instruction(0x20), 0x0000_0A00_0000_002A);
    memory.write_bytes(MEMORY_SIZE - 1, &[1, 2, 3]);
    assert_eq!(memory.read_data(MEMORY_SIZE - 1), 0x0100_0000);
}

#[test]
fn a_loaded_program_runs() {
    let mut machine = Machine::new();
    let program = [
        Opcode::MoveRegisterImmediate { r: Register(1), immediate: 40 },
        Opcode::AddTargetSourceImmediate { t: Register(2), s: Register(1), immediate: 2 },
        Opcode::HaltAndCatchFire {},
    ];
    let mut bytes = Vec::new();
    for op in program {
        bytes.extend_from_slice(&op.as_instruction().to_be_bytes());
    }
    machine.memory.write_bytes(ENTRY_POINT, &bytes);
    let mut ticks = 0;
    while !machine.is_halted() {
        machine.make_tick();
        ticks += 1;
    }
    assert_eq!(ticks, 2);
    assert_eq!(machine.processor.get_register(Register(2)), 42);
    assert_eq!(
        machine.processor.get_register(Register(INSTRUCTION_POINTER)),
        ENTRY_POINT + 2 * INSTRUCTION_SIZE
    );
}

#[test]
fn moving_into_the_instruction_pointer_jumps() {
    let mut machine = Machine::new();
    machine.memory.write_instruction(
        ENTRY_POINT,
        Opcode::MoveRegisterImmediate { r: Register(INSTRUCTION_POINTER), immediate: 0x100 }.as_instruction(),
    );
    machine.make_tick();
    assert_eq!(machine.processor.get_register(Register(INSTRUCTION_POINTER)), 0x100);
}

#[test]
fn popping_an_empty_stack_at_address_zero_wraps_the_stack_pointer() {
    let mut machine = Machine::new();
    machine.processor.set_register(Register(STACK_POINTER), 0);
    machine
        .memory
        .write_instruction(ENTRY_POINT, Opcode::PopRegister { r: Register(4) }.as_instruction());
    machine.make_tick();
    assert_eq!(machine.processor.get_stack_pointer(), 0xFFFF_FFFC);
    assert_eq!(machine.processor.get_register(Register(4)), 0);
}

#[test]
fn pushing_then_popping_restores_the_stack_pointer() {
    let mut machine = Machine::new();
    machine.processor.set_register(Register(1), 0x0BAD_F00D);
    machine
        .memory
        .write_instruction(ENTRY_POINT, Opcode::PushRegister { r: Register(1) }.as_instruction());
    machine.memory.write_instruction(
        ENTRY_POINT + INSTRUCTION_SIZE,
        Opcode::PopRegister { r: Register(2) }.as_instruction(),
    );
    machine.make_tick();
    machine.make_tick();
    assert_eq!(machine.processor.get_register(Register(2)), 0x0BAD_F00D);
    assert_eq!(machine.processor.get_stack_pointer(), STACK_START);
    assert_eq!(machine.memory.read_data(STACK_START), 0x0BAD_F00D);
}

#[test]
fn subtract_with_carry_without_carry_is_plain_subtraction() {
    let mut machine = Machine::new();
    machine.processor.set_register(Register(1), 14);
    machine.processor.set_register(Register(2), 12);
    machine.memory.write_instruction(
        ENTRY_POINT,
        Opcode::SubtractWithCarryTargetLhsRhs { t: Register(3), l: Register(1), r: Register(2) }
            .as_instruction(),
    );
    machine.make_tick();
    assert_eq!(machine.processor.get_register(Register(3)), 2);
    assert!(!machine.processor.get_flag(Flag::Carry));
}

#[test]
fn shifting_by_zero_keeps_the_value_and_sets_no_carry() {
    for left in [true, false] {
        let mut machine = Machine::new();
        machine.processor.set_register(Register(1), 0x8000_0001);
        let op = if left {
            Opcode::LeftShiftTargetLhsRhs { t: Register(3), l: Register(1), r: Register(2) }
        } else {
            Opcode::RightShiftTargetLhsRhs { t: Register(3), l: Register(1), r: Register(2) }
        };
        machine.memory.write_instruction(ENTRY_POINT, op.as_instruction());
        machine.make_tick();
        assert_eq!(machine.processor.get_register(Register(3)), 0x8000_0001);
        assert!(!machine.processor.get_flag(Flag::Carry));
    }
}

#[test]
fn shifting_by_exactly_the_word_width_clears_the_value() {
    let mut machine = Machine::new();
    machine.processor.set_register(Register(1), 0x8000_0000);
    machine.processor.set_register(Register(2), 32);
    machine.memory.write_instruction(
        ENTRY_POINT,
        Opcode::RightShiftTargetLhsRhs { t: Register(3), l: Register(1), r: Register(2) }.as_instruction(),
    );
    machine.make_tick();
    assert_eq!(machine.processor.get_register(Register(3)), 0);
    assert!(machine.processor.get_flag(Flag::Carry));
    assert!(machine.processor.get_flag(Flag::Zero));
}

#[test]
fn a_product_into_one_register_keeps_the_low_half() {
    let mut machine = Machine::new();
    machine.processor.set_register(Register(1), 0x1_0000);
    machine.processor.set_register(Register(2), 0x1_0003);
    machine.memory.write_instruction(
        ENTRY_POINT,
        Opcode::MultiplyHighLowLhsRhs { h: Register(3), t: Register(3), l: Register(1), r: Register(2) }
            .as_instruction(),
    );
    machine.make_tick();
    assert_eq!(machine.processor.get_register(Register(3)), 0x0003_0000);
    assert!(machine.processor.get_flag(Flag::Carry));
}

#[test]
fn the_terminal_shows_printable_bytes_and_blanks_the_rest() {
    let mut machine = Machine::new();
    machine.memory.write_bytes(TERMINAL_BUFFER_START, &[b'H', b'i', 0x07, b'!']);
    machine
        .memory
        .write_bytes(TERMINAL_BUFFER_START + TERMINAL_WIDTH, &[b'x']);
    let rows = machine.terminal_text();
    assert_eq!(rows.len(), TERMINAL_HEIGHT as usize);
    assert!(rows.iter().all(|row| row.len() == TERMINAL_WIDTH as usize));
    assert_eq!(&rows[0][..5], b"Hi ! ");
    assert_eq!(rows[1][0], b'x');
    assert!(rows[2].iter().all(|&c| c == b' '));
}
