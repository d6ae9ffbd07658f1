use vstd::prelude::*;

verus! {

/// How an instruction finds its operand.
#[allow(non_camel_case_types)]
#[derive(Clone, Copy, Debug, PartialEq, Eq, Hash, Structural)]
pub enum AddressingMode {
    /// No operand: the instruction acts on fixed architectural state.
    Implicit,
    /// The operand is the accumulator register.
    Accumulator,
    /// One signed byte, added to the program counter after the instruction.
    /// Only branches use it.
    Relative,
    /// The operand is the byte that follows the opcode.
    Immediate,
    /// The byte that follows the opcode is an address within page 0.
    ZeroPage,
    /// A page 0 address plus the X register, wrapped within page 0.
    ZeroPage_X,
    /// A page 0 address plus the Y register, wrapped within page 0.
    ZeroPage_Y,
    /// The two bytes that follow the opcode are the address, low byte first.
    Absolute,
    /// An absolute address plus the X register.
    Absolute_X,
    /// An absolute address plus the Y register.
    Absolute_Y,
    /// The two bytes that follow the opcode address a two-byte pointer, low
    /// byte first, which holds the target. Only the unconditional jump uses it.
    Indirect,
    /// The byte that follows the opcode, plus X, addresses a two-byte pointer
    /// in page 0, which is dereferenced.
    Indexed_Indirect_X,
    /// The byte that follows the opcode addresses a two-byte pointer in page 0;
    /// Y is added to what it holds.
    Indirect_indexed_Y,
}

impl AddressingMode {
    /// The number of operand bytes that follow the opcode byte.
    pub open spec fn spec_operand_bytes(self) -> nat {
        match self {
            AddressingMode::Implicit | AddressingMode::Accumulator => 0,
            AddressingMode::Relative
            | AddressingMode::Immediate
            | AddressingMode::ZeroPage
            | AddressingMode::ZeroPage_X
            | AddressingMode::ZeroPage_Y
            | AddressingMode::Indexed_Indirect_X
            | AddressingMode::Indirect_indexed_Y => 1,
            AddressingMode::Absolute
            | AddressingMode::Absolute_X
            | AddressingMode::Absolute_Y
            | AddressingMode::Indirect => 2,
        }
    }

    /// The length of an instruction in this mode, its opcode byte included.
    pub open spec fn spec_encoded_length(self) -> nat {
        1 + self.spec_operand_bytes()
    }

    /// The number of operand bytes that follow the opcode byte.
    pub fn operand_bytes(self) -> (count: u8)
        ensures
            count == self.spec_operand_bytes(),
    {
        match self {
            AddressingMode::Implicit | AddressingMode::Accumulator => 0,
            AddressingMode::Relative
            | AddressingMode::Immediate
            | AddressingMode::ZeroPage
            | AddressingMode::ZeroPage_X
            | AddressingMode::ZeroPage_Y
            | AddressingMode::Indexed_Indirect_X
            | AddressingMode::Indirect_indexed_Y => 1,
            AddressingMode::Absolute
            | AddressingMode::Absolute_X
            | AddressingMode::Absolute_Y
            | AddressingMode::Indirect => 2,
        }
    }

    /// The length of an instruction in this mode, its opcode byte included.
    pub fn encoded_length(self) -> (length: u8)
        ensures
            length == self.spec_encoded_length(),
            1 <= length <= 3,
    {
        1 + self.operand_bytes()
    }
}

} // verus!
