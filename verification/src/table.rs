use vstd::prelude::*;
use crate::addressing_mode::AddressingMode;
use crate::instruction::{Instruction, INDIRECT_JUMP_BYTES};
use crate::registry::enumerates;

verus! {

/// The number of opcodes that the standard table defines.
pub const STANDARD_ENTRY_COUNT: usize = 94;

/// The entry that `decode` gives for a defined opcode.
pub open spec fn defined(
    opcode: u8,
    name: &'static str,
    bytes: u8,
    addressing_mode: AddressingMode,
) -> Option<Instruction> {
    Some(Instruction { opcode, name, bytes, addressing_mode })
}

/// The standard opcode map as a function: what each opcode byte selects, in
/// the order of the opcode bytes. An opcode that is not listed is undefined.
///
/// The indirect jump, `0x6C`, is recorded with a length of 5: see
/// [`INDIRECT_JUMP_BYTES`].
pub open spec fn decode(opcode: u8) -> Option<Instruction> {
    match opcode {
        0x00 => defined(opcode, "BRK", 1, AddressingMode::Implicit),
        0x01 => defined(opcode, "ORA", 2, AddressingMode::Indexed_Indirect_X),
        0x05 => defined(opcode, "ORA", 2, AddressingMode::ZeroPage),
        0x06 => defined(opcode, "ASL", 2, AddressingMode::ZeroPage),
        0x09 => defined(opcode, "ORA", 2, AddressingMode::Immediate),
        0x0A => defined(opcode, "ASL", 1, AddressingMode::Accumulator),
        0x0D => defined(opcode, "ORA", 3, AddressingMode::Absolute),
        0x0E => defined(opcode, "ASL", 3, AddressingMode::Absolute),
        0x10 => defined(opcode, "BPL", 2, AddressingMode::Relative),
        0x11 => defined(opcode, "ORA", 2, AddressingMode::Indirect_indexed_Y),
        0x15 => defined(opcode, "ORA", 2, AddressingMode::ZeroPage_X),
        0x16 => defined(opcode, "ASL", 2, AddressingMode::ZeroPage_X),
        0x18 => defined(opcode, "CLC", 1, AddressingMode::Implicit),
        0x19 => defined(opcode, "ORA", 3, AddressingMode::Absolute_Y),
        0x1D => defined(opcode, "ORA", 3, AddressingMode::Absolute_X),
        0x1E => defined(opcode, "ASL", 3, AddressingMode::Absolute_X),
        0x21 => defined(opcode, "AND", 2, AddressingMode::Indexed_Indirect_X),
        0x25 => defined(opcode, "AND", 2, AddressingMode::ZeroPage),
        0x29 => defined(opcode, "AND", 2, AddressingMode::Immediate),
        0x2D => defined(opcode, "AND", 3, AddressingMode::Absolute),
        0x30 => defined(opcode, "BMI", 2, AddressingMode::Relative),
        0x31 => defined(opcode, "AND", 2, AddressingMode::Indirect_indexed_Y),
        0x35 => defined(opcode, "AND", 2, AddressingMode::ZeroPage_X),
        0x39 => defined(opcode, "AND", 3, AddressingMode::Absolute_Y),
        0x3D => defined(opcode, "AND", 3, AddressingMode::Absolute_X),
        0x41 => defined(opcode, "EOR", 2, AddressingMode::Indexed_Indirect_X),
        0x45 => defined(opcode, "EOR", 2, AddressingMode::ZeroPage),
        0x49 => defined(opcode, "EOR", 2, AddressingMode::Immediate),
        0x4C => defined(opcode, "JMP", 3, AddressingMode::Absolute),
        0x4D => defined(opcode, "EOR", 3, AddressingMode::Absolute),
        0x50 => defined(opcode, "BVC", 2, AddressingMode::Relative),
        0x51 => defined(opcode, "EOR", 2, AddressingMode::Indirect_indexed_Y),
        0x55 => defined(opcode, "EOR", 2, AddressingMode::ZeroPage_X),
        0x59 => defined(opcode, "EOR", 3, AddressingMode::Absolute_Y),
        0x5D => defined(opcode, "EOR", 3, AddressingMode::Absolute_X),
        0x61 => defined(opcode, "ADC", 2, AddressingMode::Indexed_Indirect_X),
        0x65 => defined(opcode, "ADC", 2, AddressingMode::ZeroPage),
        0x69 => defined(opcode, "ADC", 2, AddressingMode::Immediate),
        // Recorded with the length of the variant table, not with the 3 bytes of
        // its encoding.
        0x6C => defined(opcode, "JMP", INDIRECT_JUMP_BYTES, AddressingMode::Indirect),
        0x6D => defined(opcode, "ADC", 3, AddressingMode::Absolute),
        0x70 => defined(opcode, "BVS", 2, AddressingMode::Relative),
        0x71 => defined(opcode, "ADC", 2, AddressingMode::Indirect_indexed_Y),
        0x75 => defined(opcode, "ADC", 2, AddressingMode::ZeroPage_X),
        0x79 => defined(opcode, "ADC", 3, AddressingMode::Absolute_Y),
        0x7D => defined(opcode, "ADC", 3, AddressingMode::Absolute_X),
        0x8A => defined(opcode, "TXA", 1, AddressingMode::Implicit),
        0x90 => defined(opcode, "BCC", 2, AddressingMode::Relative),
        0xA0 => defined(opcode, "LDY", 2, AddressingMode::Immediate),
        0xA1 => defined(opcode, "LDA", 2, AddressingMode::Indexed_Indirect_X),
        0xA4 => defined(opcode, "LDY", 2, AddressingMode::ZeroPage),
        0xA5 => defined(opcode, "LDA", 2, AddressingMode::ZeroPage),
        0xA9 => defined(opcode, "LDA", 2, AddressingMode::Immediate),
        0xAA => defined(opcode, "TAX", 1, AddressingMode::Implicit),
        0xAC => defined(opcode, "LDY", 3, AddressingMode::Absolute),
        0xAD => defined(opcode, "LDA", 3, AddressingMode::Absolute),
        0xB0 => defined(opcode, "BCS", 2, AddressingMode::Relative),
        0xB1 => defined(opcode, "LDA", 2, AddressingMode::Indirect_indexed_Y),
        0xB4 => defined(opcode, "LDY", 2, AddressingMode::ZeroPage_X),
        0xB5 => defined(opcode, "LDA", 2, AddressingMode::ZeroPage_X),
        0xB8 => defined(opcode, "CLV", 1, AddressingMode::Implicit),
        0xB9 => defined(opcode, "LDA", 3, AddressingMode::Absolute_Y),
        0xBC => defined(opcode, "LDY", 3, AddressingMode::Absolute_X),
        0xBD => defined(opcode, "LDA", 3, AddressingMode::Absolute_X),
        0xC1 => defined(opcode, "CMP", 2, AddressingMode::Indexed_Indirect_X),
        0xC5 => defined(opcode, "CMP", 2, AddressingMode::ZeroPage),
        0xC6 => defined(opcode, "DEC", 2, AddressingMode::ZeroPage),
        0xC9 => defined(opcode, "CMP", 2, AddressingMode::Immediate),
        0xCA => defined(opcode, "DEX", 1, AddressingMode::Implicit),
        0xCD => defined(opcode, "CMP", 3, AddressingMode::Absolute),
        0xCE => defined(opcode, "DEC", 3, AddressingMode::Absolute),
        0xD0 => defined(opcode, "BNE", 2, AddressingMode::Relative),
        0xD1 => defined(opcode, "CMP", 2, AddressingMode::Indirect_indexed_Y),
        0xD5 => defined(opcode, "CMP", 2, AddressingMode::ZeroPage_X),
        0xD6 => defined(opcode, "DEC", 2, AddressingMode::ZeroPage_X),
        0xD9 => defined(opcode, "CMP", 3, AddressingMode::Absolute_Y),
        0xDD => defined(opcode, "CMP", 3, AddressingMode::Absolute_X),
        0xDE => defined(opcode, "DEC", 3, AddressingMode::Absolute_X),
        0xE0 => defined(opcode, "CPX", 2, AddressingMode::Immediate),
        0xE1 => defined(opcode, "SBC", 2, AddressingMode::Indexed_Indirect_X),
        0xE4 => defined(opcode, "CPX", 2, AddressingMode::ZeroPage),
        0xE5 => defined(opcode, "SBC", 2, AddressingMode::ZeroPage),
        0xE6 => defined(opcode, "INC", 2, AddressingMode::ZeroPage),
        0xE8 => defined(opcode, "INX", 1, AddressingMode::Implicit),
        0xE9 => defined(opcode, "SBC", 2, AddressingMode::Immediate),
        0xEC => defined(opcode, "CPX", 3, AddressingMode::Absolute),
        0xED => defined(opcode, "SBC", 3, AddressingMode::Absolute),
        0xEE => defined(opcode, "INC", 3, AddressingMode::Absolute),
        0xF0 => defined(opcode, "BEQ", 2, AddressingMode::Relative),
        0xF1 => defined(opcode, "SBC", 2, AddressingMode::Indirect_indexed_Y),
        0xF5 => defined(opcode, "SBC", 2, AddressingMode::ZeroPage_X),
        0xF6 => defined(opcode, "INC", 2, AddressingMode::ZeroPage_X),
        0xF9 => defined(opcode, "SBC", 3, AddressingMode::Absolute_Y),
        0xFD => defined(opcode, "SBC", 3, AddressingMode::Absolute_X),
        0xFE => defined(opcode, "INC", 3, AddressingMode::Absolute_X),
        _ => None,
    }
}

/// The standard opcode map as a map: its keys are the opcodes that `decode`
/// defines.
pub open spec fn standard_map() -> Map<u8, Instruction> {
    Map::new(|opcode: u8| decode(opcode) is Some, |opcode: u8| decode(opcode)->0)
}

/// Whether the standard table holds an entry with the mnemonic `name` and the
/// addressing mode `mode`.
pub open spec fn standard_pairs(name: Seq<char>, mode: AddressingMode) -> bool {
    exists|opcode: u8|
        (#[trigger] decode(opcode)) matches Some(entry) && entry.name@ == name
            && entry.addressing_mode == mode
}

/// The entries of the standard table as a list, most of them grouped by
/// mnemonic. The order carries no meaning; the list holds each defined opcode
/// once.
pub fn instruction_table() -> (table: Vec<Instruction>)
    ensures
        table@.len() == STANDARD_ENTRY_COUNT,
        enumerates(table@, standard_map()),
{
    let table = vec![
        Instruction { opcode: 0x69, name: "ADC", bytes: 2, addressing_mode: AddressingMode::Immediate },
        Instruction { opcode: 0x65, name: "ADC", bytes: 2, addressing_mode: AddressingMode::ZeroPage },
        Instruction { opcode: 0x75, name: "ADC", bytes: 2, addressing_mode: AddressingMode::ZeroPage_X },
        Instruction { opcode: 0x6D, name: "ADC", bytes: 3, addressing_mode: AddressingMode::Absolute },
        Instruction { opcode: 0x7D, name: "ADC", bytes: 3, addressing_mode: AddressingMode::Absolute_X },
        Instruction { opcode: 0x79, name: "ADC", bytes: 3, addressing_mode: AddressingMode::Absolute_Y },
        Instruction { opcode: 0x61, name: "ADC", bytes: 2, addressing_mode: AddressingMode::Indexed_Indirect_X },
        Instruction { opcode: 0x71, name: "ADC", bytes: 2, addressing_mode: AddressingMode::Indirect_indexed_Y },
        Instruction { opcode: 0x29, name: "AND", bytes: 2, addressing_mode: AddressingMode::Immediate },
        Instruction { opcode: 0x25, name: "AND", bytes: 2, addressing_mode: AddressingMode::ZeroPage },
        Instruction { opcode: 0x35, name: "AND", bytes: 2, addressing_mode: AddressingMode::ZeroPage_X },
        Instruction { opcode: 0x2D, name: "AND", bytes: 3, addressing_mode: AddressingMode::Absolute },
        Instruction { opcode: 0x3D, name: "AND", bytes: 3, addressing_mode: AddressingMode::Absolute_X },
        Instruction { opcode: 0x39, name: "AND", bytes: 3, addressing_mode: AddressingMode::Absolute_Y },
        Instruction { opcode: 0x21, name: "AND", bytes: 2, addressing_mode: AddressingMode::Indexed_Indirect_X },
        Instruction { opcode: 0x31, name: "AND", bytes: 2, addressing_mode: AddressingMode::Indirect_indexed_Y },
        Instruction { opcode: 0x0A, name: "ASL", bytes: 1, addressing_mode: AddressingMode::Accumulator },
        Instruction { opcode: 0x06, name: "ASL", bytes: 2, addressing_mode: AddressingMode::ZeroPage },
        Instruction { opcode: 0x16, name: "ASL", bytes: 2, addressing_mode: AddressingMode::ZeroPage_X },
        Instruction { opcode: 0x0E, name: "ASL", bytes: 3, addressing_mode: AddressingMode::Absolute },
        Instruction { opcode: 0x1E, name: "ASL", bytes: 3, addressing_mode: AddressingMode::Absolute_X },
        Instruction { opcode: 0x90, name: "BCC", bytes: 2, addressing_mode: AddressingMode::Relative },
        Instruction { opcode: 0xB0, name: "BCS", bytes: 2, addressing_mode: AddressingMode::Relative },
        Instruction { opcode: 0xF0, name: "BEQ", bytes: 2, addressing_mode: AddressingMode::Relative },
        Instruction { opcode: 0x30, name: "BMI", bytes: 2, addressing_mode: AddressingMode::Relative },
        Instruction { opcode: 0xD0, name: "BNE", bytes: 2, addressing_mode: AddressingMode::Relative },
        Instruction { opcode: 0x10, name: "BPL", bytes: 2, addressing_mode: AddressingMode::Relative },
        Instruction { opcode: 0x00, name: "BRK", bytes: 1, addressing_mode: AddressingMode::Implicit },
        Instruction { opcode: 0x50, name: "BVC", bytes: 2, addressing_mode: AddressingMode::Relative },
        Instruction { opcode: 0x70, name: "BVS", bytes: 2, addressing_mode: AddressingMode::Relative },
        Instruction { opcode: 0x18, name: "CLC", bytes: 1, addressing_mode: AddressingMode::Implicit },
        Instruction { opcode: 0xB8, name: "CLV", bytes: 1, addressing_mode: AddressingMode::Implicit },
        Instruction { opcode: 0xC9, name: "CMP", bytes: 2, addressing_mode: AddressingMode::Immediate },
        Instruction { opcode: 0xC5, name: "CMP", bytes: 2, addressing_mode: AddressingMode::ZeroPage },
        Instruction { opcode: 0xD5, name: "CMP", bytes: 2, addressing_mode: AddressingMode::ZeroPage_X },
        Instruction { opcode: 0xCD, name: "CMP", bytes: 3, addressing_mode: AddressingMode::Absolute },
        Instruction { opcode: 0xDD, name: "CMP", bytes: 3, addressing_mode: AddressingMode::Absolute_X },
        Instruction { opcode: 0xD9, name: "CMP", bytes: 3, addressing_mode: AddressingMode::Absolute_Y },
        Instruction { opcode: 0xC1, name: "CMP", bytes: 2, addressing_mode: AddressingMode::Indexed_Indirect_X },
        Instruction { opcode: 0xD1, name: "CMP", bytes: 2, addressing_mode: AddressingMode::Indirect_indexed_Y },
        Instruction { opcode: 0xE0, name: "CPX", bytes: 2, addressing_mode: AddressingMode::Immediate },
        Instruction { opcode: 0xE4, name: "CPX", bytes: 2, addressing_mode: AddressingMode::ZeroPage },
        Instruction { opcode: 0xEC, name: "CPX", bytes: 3, addressing_mode: AddressingMode::Absolute },
        Instruction { opcode: 0xC6, name: "DEC", bytes: 2, addressing_mode: AddressingMode::ZeroPage },
        Instruction { opcode: 0xD6, name: "DEC", bytes: 2, addressing_mode: AddressingMode::ZeroPage_X },
        Instruction { opcode: 0xCE, name: "DEC", bytes: 3, addressing_mode: AddressingMode::Absolute },
        Instruction { opcode: 0xDE, name: "DEC", bytes: 3, addressing_mode: AddressingMode::Absolute_X },
        Instruction { opcode: 0xCA, name: "DEX", bytes: 1, addressing_mode: AddressingMode::Implicit },
        Instruction { opcode: 0x49, name: "EOR", bytes: 2, addressing_mode: AddressingMode::Immediate },
        Instruction { opcode: 0x45, name: "EOR", bytes: 2, addressing_mode: AddressingMode::ZeroPage },
        Instruction { opcode: 0x55, name: "EOR", bytes: 2, addressing_mode: AddressingMode::ZeroPage_X },
        Instruction { opcode: 0x4D, name: "EOR", bytes: 3, addressing_mode: AddressingMode::Absolute },
        Instruction { opcode: 0x5D, name: "EOR", bytes: 3, addressing_mode: AddressingMode::Absolute_X },
        Instruction { opcode: 0x59, name: "EOR", bytes: 3, addressing_mode: AddressingMode::Absolute_Y },
        Instruction { opcode: 0x41, name: "EOR", bytes: 2, addressing_mode: AddressingMode::Indexed_Indirect_X },
        Instruction { opcode: 0x51, name: "EOR", bytes: 2, addressing_mode: AddressingMode::Indirect_indexed_Y },
        Instruction { opcode: 0xE6, name: "INC", bytes: 2, addressing_mode: AddressingMode::ZeroPage },
        Instruction { opcode: 0xF6, name: "INC", bytes: 2, addressing_mode: AddressingMode::ZeroPage_X },
        Instruction { opcode: 0xEE, name: "INC", bytes: 3, addressing_mode: AddressingMode::Absolute },
        Instruction { opcode: 0xFE, name: "INC", bytes: 3, addressing_mode: AddressingMode::Absolute_X },
        Instruction { opcode: 0x4C, name: "JMP", bytes: 3, addressing_mode: AddressingMode::Absolute },
        // The one entry whose length is not that of its addressing mode.
        Instruction { opcode: 0x6C, name: "JMP", bytes: INDIRECT_JUMP_BYTES, addressing_mode: AddressingMode::Indirect },
        Instruction { opcode: 0xA9, name: "LDA", bytes: 2, addressing_mode: AddressingMode::Immediate },
        Instruction { opcode: 0xA5, name: "LDA", bytes: 2, addressing_mode: AddressingMode::ZeroPage },
        Instruction { opcode: 0xB5, name: "LDA", bytes: 2, addressing_mode: AddressingMode::ZeroPage_X },
        Instruction { opcode: 0xAD, name: "LDA", bytes: 3, addressing_mode: AddressingMode::Absolute },
        Instruction { opcode: 0xBD, name: "LDA", bytes: 3, addressing_mode: AddressingMode::Absolute_X },
        Instruction { opcode: 0xB9, name: "LDA", bytes: 3, addressing_mode: AddressingMode::Absolute_Y },
        Instruction { opcode: 0xA1, name: "LDA", bytes: 2, addressing_mode: AddressingMode::Indexed_Indirect_X },
        Instruction { opcode: 0xB1, name: "LDA", bytes: 2, addressing_mode: AddressingMode::Indirect_indexed_Y },
        Instruction { opcode: 0xA0, name: "LDY", bytes: 2, addressing_mode: AddressingMode::Immediate },
        Instruction { opcode: 0xA4, name: "LDY", bytes: 2, addressing_mode: AddressingMode::ZeroPage },
        Instruction { opcode: 0xB4, name: "LDY", bytes: 2, addressing_mode: AddressingMode::ZeroPage_X },
        Instruction { opcode: 0xAC, name: "LDY", bytes: 3, addressing_mode: AddressingMode::Absolute },
        Instruction { opcode: 0xBC, name: "LDY", bytes: 3, addressing_mode: AddressingMode::Absolute_X },
        Instruction { opcode: 0xAA, name: "TAX", bytes: 1, addressing_mode: AddressingMode::Implicit },
        Instruction { opcode: 0x09, name: "ORA", bytes: 2, addressing_mode: AddressingMode::Immediate },
        Instruction { opcode: 0x05, name: "ORA", bytes: 2, addressing_mode: AddressingMode::ZeroPage },
        Instruction { opcode: 0x15, name: "ORA", bytes: 2, addressing_mode: AddressingMode::ZeroPage_X },
        Instruction { opcode: 0x0D, name: "ORA", bytes: 3, addressing_mode: AddressingMode::Absolute },
        Instruction { opcode: 0x1D, name: "ORA", bytes: 3, addressing_mode: AddressingMode::Absolute_X },
        Instruction { opcode: 0x19, name: "ORA", bytes: 3, addressing_mode: AddressingMode::Absolute_Y },
        Instruction { opcode: 0x01, name: "ORA", bytes: 2, addressing_mode: AddressingMode::Indexed_Indirect_X },
        Instruction { opcode: 0x11, name: "ORA", bytes: 2, addressing_mode: AddressingMode::Indirect_indexed_Y },
        Instruction { opcode: 0xE8, name: "INX", bytes: 1, addressing_mode: AddressingMode::Implicit },
        Instruction { opcode: 0xE9, name: "SBC", bytes: 2, addressing_mode: AddressingMode::Immediate },
        Instruction { opcode: 0xE5, name: "SBC", bytes: 2, addressing_mode: AddressingMode::ZeroPage },
        Instruction { opcode: 0xF5, name: "SBC", bytes: 2, addressing_mode: AddressingMode::ZeroPage_X },
        Instruction { opcode: 0xED, name: "SBC", bytes: 3, addressing_mode: AddressingMode::Absolute },
        Instruction { opcode: 0xFD, name: "SBC", bytes: 3, addressing_mode: AddressingMode::Absolute_X },
        Instruction { opcode: 0xF9, name: "SBC", bytes: 3, addressing_mode: AddressingMode::Absolute_Y },
        Instruction { opcode: 0xE1, name: "SBC", bytes: 2, addressing_mode: AddressingMode::Indexed_Indirect_X },
        Instruction { opcode: 0xF1, name: "SBC", bytes: 2, addressing_mode: AddressingMode::Indirect_indexed_Y },
        Instruction { opcode: 0x8A, name: "TXA", bytes: 1, addressing_mode: AddressingMode::Implicit },
    ];
    table
}

} // verus!
