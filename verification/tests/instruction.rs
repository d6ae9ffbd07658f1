use mos6502_opcodes::instruction::{INDIRECT_JUMP_BYTES, INDIRECT_JUMP_OPCODE};
use mos6502_opcodes::{AddressingMode, Instruction};

fn all_modes() -> Vec<AddressingMode> {
    vec![
        AddressingMode::Implicit,
        AddressingMode::Accumulator,
        AddressingMode::Relative,
        AddressingMode::Immediate,
        AddressingMode::ZeroPage,
        AddressingMode::ZeroPage_X,
        AddressingMode::ZeroPage_Y,
        AddressingMode::Absolute,
        AddressingMode::Absolute_X,
        AddressingMode::Absolute_Y,
        AddressingMode::Indirect,
        AddressingMode::Indexed_Indirect_X,
        AddressingMode::Indirect_indexed_Y,
    ]
}

#[test]
fn new_keeps_every_field() {
    let instruction = Instruction::new(0xA9, "LDA", 2, AddressingMode::Immediate);
    assert_eq!(instruction.opcode, 0xA9);
    assert_eq!(instruction.name, "LDA");
    assert_eq!(instruction.bytes, 2);
    assert_eq!(instruction.addressing_mode, AddressingMode::Immediate);
}

#[test]
fn new_does_not_check_the_length() {
    let instruction = Instruction::new(0x00, "BRK", 9, AddressingMode::Implicit);
    assert_eq!(instruction.bytes, 9);
    assert!(!instruction.length_consistent());
}

#[test]
fn new_equals_the_literal() {
    let built = Instruction::new(0x4C, "JMP", 3, AddressingMode::Absolute);
    let literal =
        Instruction { opcode: 0x4C, name: "JMP", bytes: 3, addressing_mode: AddressingMode::Absolute };
    assert_eq!(built, literal);
}

#[test]
fn modes_without_operand() {
    assert_eq!(AddressingMode::Implicit.operand_bytes(), 0);
    assert_eq!(AddressingMode::Accumulator.operand_bytes(), 0);
    assert_eq!(AddressingMode::Implicit.encoded_length(), 1);
    assert_eq!(AddressingMode::Accumulator.encoded_length(), 1);
}

#[test]
fn modes_with_one_operand_byte() {
    let modes = [
        AddressingMode::Relative,
        AddressingMode::Immediate,
        AddressingMode::ZeroPage,
        AddressingMode::ZeroPage_X,
        AddressingMode::ZeroPage_Y,
        AddressingMode::Indexed_Indirect_X,
        AddressingMode::Indirect_indexed_Y,
    ];
    for mode in modes {
        assert_eq!(mode.operand_bytes(), 1, "{:?}", mode);
        assert_eq!(mode.encoded_length(), 2, "{:?}", mode);
    }
}

#[test]
fn modes_with_two_operand_bytes() {
    let modes = [
        AddressingMode::Absolute,
        AddressingMode::Absolute_X,
        AddressingMode::Absolute_Y,
        AddressingMode::Indirect,
    ];
    for mode in modes {
        assert_eq!(mode.operand_bytes(), 2, "{:?}", mode);
        assert_eq!(mode.encoded_length(), 3, "{:?}", mode);
    }
}

#[test]
fn encoded_length_is_one_more_than_operand_bytes() {
    for mode in all_modes() {
        assert_eq!(mode.encoded_length(), 1 + mode.operand_bytes(), "{:?}", mode);
    }
}

#[test]
fn length_fits_only_the_length_of_the_mode() {
    for mode in all_modes() {
        for bytes in 0..=255u8 {
            let instruction = Instruction::new(0x00, "BRK", bytes, mode);
            assert_eq!(
                instruction.length_consistent(),
                bytes == mode.encoded_length(),
                "{:?} with {} bytes",
                mode,
                bytes
            );
        }
    }
}

#[test]
fn indirect_jump_constants() {
    assert_eq!(INDIRECT_JUMP_OPCODE, 0x6C);
    assert_eq!(INDIRECT_JUMP_BYTES, 5);
}

#[test]
fn indirect_jump_of_five_bytes_is_the_anomaly() {
    let jump = Instruction::new(0x6C, "JMP", 5, AddressingMode::Indirect);
    assert!(jump.is_indirect_jump_anomaly());
    assert!(jump.length_consistent());
    assert_ne!(jump.bytes, jump.addressing_mode.encoded_length());
}

#[test]
fn indirect_jump_of_three_bytes_fits_its_mode() {
    let jump = Instruction::new(0x6C, "JMP", 3, AddressingMode::Indirect);
    assert!(!jump.is_indirect_jump_anomaly());
    assert!(jump.length_consistent());
}

#[test]
fn anomaly_needs_opcode_mode_and_length() {
    let other_opcode = Instruction::new(0x6D, "JMP", 5, AddressingMode::Indirect);
    assert!(!other_opcode.is_indirect_jump_anomaly());
    assert!(!other_opcode.length_consistent());
    let other_mode = Instruction::new(0x6C, "JMP", 5, AddressingMode::Absolute);
    assert!(!other_mode.is_indirect_jump_anomaly());
    assert!(!other_mode.length_consistent());
    let other_length = Instruction::new(0x6C, "JMP", 4, AddressingMode::Indirect);
    assert!(!other_length.is_indirect_jump_anomaly());
    assert!(!other_length.length_consistent());
}
