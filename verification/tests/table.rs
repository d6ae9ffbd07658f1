use mos6502_opcodes::table::instruction_table;
use mos6502_opcodes::{AddressingMode, Instruction, Registry};

fn modes_of(entries: &[Instruction], name: &str) -> Vec<AddressingMode> {
    entries.iter().filter(|entry| entry.name == name).map(|entry| entry.addressing_mode).collect()
}

#[test]
fn table_has_no_repeated_opcode() {
    let table = instruction_table();
    for (i, entry) in table.iter().enumerate() {
        for other in &table[i + 1..] {
            assert_ne!(entry.opcode, other.opcode, "{:?} and {:?}", entry, other);
        }
    }
}

#[test]
fn table_lengths_fit_the_modes_but_for_the_indirect_jump() {
    let mut exceptions = Vec::new();
    for entry in instruction_table() {
        if entry.bytes != 1 + entry.addressing_mode.operand_bytes() {
            exceptions.push(entry);
        }
        assert!(entry.length_consistent(), "{:?}", entry);
    }
    assert_eq!(exceptions, vec![Instruction::new(0x6C, "JMP", 5, AddressingMode::Indirect)]);
    assert!(exceptions[0].is_indirect_jump_anomaly());
    assert_eq!(exceptions[0].addressing_mode.encoded_length(), 3);
}

#[test]
fn table_lengths_are_between_one_and_five() {
    for entry in instruction_table() {
        assert!(1 <= entry.bytes && entry.bytes <= 5, "{:?}", entry);
        if entry.opcode != 0x6C {
            assert!(entry.bytes <= 3, "{:?}", entry);
        }
    }
}

#[test]
fn lda_has_its_eight_modes() {
    let expected = vec![
        AddressingMode::Immediate,
        AddressingMode::ZeroPage,
        AddressingMode::ZeroPage_X,
        AddressingMode::Absolute,
        AddressingMode::Absolute_X,
        AddressingMode::Absolute_Y,
        AddressingMode::Indexed_Indirect_X,
        AddressingMode::Indirect_indexed_Y,
    ];
    assert_eq!(modes_of(&instruction_table(), "LDA"), expected);
    let from_registry = modes_of(&Registry::new().all(), "LDA");
    assert_eq!(from_registry.len(), 8);
    for mode in expected {
        assert!(from_registry.contains(&mode), "{:?}", mode);
    }
}

#[test]
fn lda_opcodes() {
    let registry = Registry::new();
    let opcodes = [
        (0xA9, 2, AddressingMode::Immediate),
        (0xA5, 2, AddressingMode::ZeroPage),
        (0xB5, 2, AddressingMode::ZeroPage_X),
        (0xAD, 3, AddressingMode::Absolute),
        (0xBD, 3, AddressingMode::Absolute_X),
        (0xB9, 3, AddressingMode::Absolute_Y),
        (0xA1, 2, AddressingMode::Indexed_Indirect_X),
        (0xB1, 2, AddressingMode::Indirect_indexed_Y),
    ];
    for (opcode, bytes, mode) in opcodes {
        assert_eq!(registry.lookup(opcode), Some(Instruction::new(opcode, "LDA", bytes, mode)));
    }
}

#[test]
fn jmp_has_two_modes() {
    let modes = modes_of(&instruction_table(), "JMP");
    assert_eq!(modes, vec![AddressingMode::Absolute, AddressingMode::Indirect]);
}

#[test]
fn one_entry_is_indirect() {
    let indirect: Vec<Instruction> = Registry::new()
        .all()
        .into_iter()
        .filter(|entry| entry.addressing_mode == AddressingMode::Indirect)
        .collect();
    assert_eq!(indirect.len(), 1);
    assert_eq!(indirect[0].opcode, 0x6C);
    assert_eq!(indirect[0].name, "JMP");
}

#[test]
fn branches_are_relative() {
    let branches = ["BCC", "BCS", "BEQ", "BMI", "BNE", "BPL", "BVC", "BVS"];
    let table = instruction_table();
    for entry in &table {
        let is_branch = branches.contains(&entry.name);
        assert_eq!(entry.addressing_mode == AddressingMode::Relative, is_branch, "{:?}", entry);
    }
    for name in branches {
        assert_eq!(modes_of(&table, name), vec![AddressingMode::Relative]);
    }
}

#[test]
fn mnemonics_have_three_characters() {
    for entry in instruction_table() {
        assert_eq!(entry.name.chars().count(), 3, "{:?}", entry);
        assert!(entry.name.chars().all(|letter| letter.is_ascii_uppercase()), "{:?}", entry);
    }
}

#[test]
fn table_starts_and_ends_as_listed() {
    let table = instruction_table();
    assert_eq!(table[0], Instruction::new(0x69, "ADC", 2, AddressingMode::Immediate));
    assert_eq!(table[93], Instruction::new(0x8A, "TXA", 1, AddressingMode::Implicit));
}

#[test]
fn table_has_twenty_eight_mnemonics() {
    let mut names: Vec<&str> = instruction_table().iter().map(|entry| entry.name).collect();
    names.sort();
    names.dedup();
    assert_eq!(names.len(), 28);
}
