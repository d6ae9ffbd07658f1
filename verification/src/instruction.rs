use vstd::prelude::*;
use crate::addressing_mode::AddressingMode;

verus! {

/// The opcode of the indirect jump, the one entry whose recorded length is not
/// the length of its encoding.
pub const INDIRECT_JUMP_OPCODE: u8 = 0x6C;

/// The length recorded for the indirect jump.
///
/// Its encoding occupies 3 bytes: the opcode and a two-byte pointer. The
/// registry records 5, the value of the variant opcode table it stays
/// compatible with. The difference is deliberate, it is confined to this one
/// opcode, and every length rule of this crate names it as the exception.
pub const INDIRECT_JUMP_BYTES: u8 = 5;

/// What the registry knows of one opcode.
#[derive(Clone, Copy, Debug, PartialEq, Eq)]
pub struct Instruction {
    /// The opcode byte, the key of the entry.
    pub opcode: u8,
    /// The mnemonic. Several opcodes share one, each with its own addressing
    /// mode.
    pub name: &'static str,
    /// The recorded length of the instruction, the opcode byte included.
    pub bytes: u8,
    /// How the operand bytes are read.
    pub addressing_mode: AddressingMode,
}

impl Instruction {
    /// An entry with the given fields. Nothing is checked here: whether the
    /// length fits the addressing mode is what
    /// [`Instruction::length_consistent`] says.
    pub fn new(opcode: u8, name: &'static str, bytes: u8, addressing_mode: AddressingMode) -> (instruction: Self)
        ensures
            instruction == (Instruction { opcode, name, bytes, addressing_mode }),
    {
        Instruction { opcode: opcode, name: name, bytes: bytes, addressing_mode: addressing_mode }
    }

    /// Whether this is the indirect jump as the registry records it.
    pub open spec fn spec_is_indirect_jump_anomaly(&self) -> bool {
        &&& self.opcode == INDIRECT_JUMP_OPCODE
        &&& self.addressing_mode == AddressingMode::Indirect
        &&& self.bytes == INDIRECT_JUMP_BYTES
    }

    /// Whether the recorded length fits the addressing mode: one byte for the
    /// opcode plus the operand bytes of the mode, or else the entry is the
    /// indirect jump with its recorded length of 5.
    pub open spec fn spec_length_consistent(&self) -> bool {
        ||| self.bytes == self.addressing_mode.spec_encoded_length()
        ||| self.spec_is_indirect_jump_anomaly()
    }

    /// Whether this is the indirect jump as the registry records it.
    #[verifier::when_used_as_spec(spec_is_indirect_jump_anomaly)]
    pub fn is_indirect_jump_anomaly(&self) -> (anomaly: bool)
        ensures
            anomaly == self.spec_is_indirect_jump_anomaly(),
    {
        self.opcode == INDIRECT_JUMP_OPCODE && self.addressing_mode == AddressingMode::Indirect
            && self.bytes == INDIRECT_JUMP_BYTES
    }

    /// Whether the recorded length fits the addressing mode.
    #[verifier::when_used_as_spec(spec_length_consistent)]
    pub fn length_consistent(&self) -> (consistent: bool)
        ensures
            consistent == self.spec_length_consistent(),
    {
        self.bytes == self.addressing_mode.encoded_length() || self.is_indirect_jump_anomaly()
    }
}

} // verus!
