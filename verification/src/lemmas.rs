//! What holds of every registry and of the standard table, stated over the
//! models that the contracts of the library use.

use vstd::prelude::*;
use crate::addressing_mode::AddressingMode;
use crate::instruction::{Instruction, INDIRECT_JUMP_BYTES, INDIRECT_JUMP_OPCODE};
use crate::registry::{enumerates, keyed_and_consistent, lookup_in, well_formed};
use crate::table::{decode, standard_pairs};

verus! {

/// In a list that enumerates a map, an opcode occurs at one place only. This
/// holds of every list that `Registry::from_entries` accepts, of every list
/// that `Registry::all` returns, and of `instruction_table`.
pub proof fn lemma_opcode_occurs_once(
    list: Seq<Instruction>,
    map: Map<u8, Instruction>,
    i: int,
    j: int,
)
    requires
        enumerates(list, map),
        0 <= i < list.len(),
        0 <= j < list.len(),
        list[i].opcode == list[j].opcode,
    ensures
        i == j,
{
    if i < j {
        assert(list[i].opcode != list[j].opcode);
    } else if j < i {
        assert(list[j].opcode != list[i].opcode);
    }
}

/// A list enumerates one map only: the list that `Registry::from_entries`
/// accepts fixes the registry that it returns.
pub proof fn lemma_enumeration_fixes_map(
    list: Seq<Instruction>,
    first: Map<u8, Instruction>,
    second: Map<u8, Instruction>,
)
    requires
        enumerates(list, first),
        enumerates(list, second),
    ensures
        first == second,
{
    assert forall|opcode: u8| first.contains_key(opcode) == second.contains_key(opcode) by {
        if first.contains_key(opcode) {
            let i = choose|i: int| 0 <= i < list.len() && (#[trigger] list[i]).opcode == opcode;
            assert(second.contains_key(list[i].opcode));
        }
        if second.contains_key(opcode) {
            let i = choose|i: int| 0 <= i < list.len() && (#[trigger] list[i]).opcode == opcode;
            assert(first.contains_key(list[i].opcode));
        }
    }
    assert forall|opcode: u8| first.contains_key(opcode) implies first[opcode] == second[opcode] by {
        let i = choose|i: int| 0 <= i < list.len() && (#[trigger] list[i]).opcode == opcode;
        assert(first[list[i].opcode] == list[i]);
        assert(second[list[i].opcode] == list[i]);
    }
    assert(first =~= second);
}

/// Every entry of a registry built from a well-formed list sits at its own
/// opcode and records a length that fits its addressing mode.
pub proof fn lemma_built_map_is_consistent(list: Seq<Instruction>, map: Map<u8, Instruction>)
    requires
        well_formed(list),
        enumerates(list, map),
    ensures
        keyed_and_consistent(map),
{
    assert forall|opcode: u8| #[trigger] map.contains_key(opcode) implies map[opcode].opcode
        == opcode && map[opcode].spec_length_consistent() by {
        let i = choose|i: int| 0 <= i < list.len() && (#[trigger] list[i]).opcode == opcode;
        assert(map[list[i].opcode] == list[i]);
        assert(list[i].spec_length_consistent());
    }
}

/// Looking up the opcode of an entry that went into a registry finds that
/// entry.
pub proof fn lemma_lookup_finds_entry(list: Seq<Instruction>, map: Map<u8, Instruction>, i: int)
    requires
        enumerates(list, map),
        0 <= i < list.len(),
    ensures
        lookup_in(map, list[i].opcode) == Some(list[i]),
{
    assert(map.contains_key(list[i].opcode) && map[list[i].opcode] == list[i]);
}

/// Looking up an opcode that no entry carries finds nothing.
pub proof fn lemma_lookup_reports_absence(
    list: Seq<Instruction>,
    map: Map<u8, Instruction>,
    opcode: u8,
)
    requires
        enumerates(list, map),
        forall|i: int| 0 <= i < list.len() ==> (#[trigger] list[i]).opcode != opcode,
    ensures
        lookup_in(map, opcode) is None,
{
    if map.contains_key(opcode) {
        let i = choose|i: int| 0 <= i < list.len() && (#[trigger] list[i]).opcode == opcode;
        assert(list[i].opcode != opcode);
    }
}

/// In the standard table every entry sits at its own opcode, and its recorded
/// length is one more than the operand bytes of its addressing mode, so
/// between 1 and 3. The one exception is the indirect jump, which is recorded
/// with 5 where its mode implies 3.
pub proof fn lemma_standard_lengths(opcode: u8)
    requires
        decode(opcode) is Some,
    ensures
        ({
            let entry = decode(opcode)->0;
            &&& entry.opcode == opcode
            &&& entry.spec_length_consistent()
            &&& opcode != INDIRECT_JUMP_OPCODE ==> entry.bytes == 1
                + entry.addressing_mode.spec_operand_bytes() && 1 <= entry.bytes <= 3
            &&& opcode == INDIRECT_JUMP_OPCODE ==> entry.addressing_mode
                == AddressingMode::Indirect && entry.bytes == INDIRECT_JUMP_BYTES
                && entry.addressing_mode.spec_encoded_length() == 3
        }),
{
}

/// In the standard table the indirect jump is the one entry that uses the
/// indirect addressing mode.
pub proof fn lemma_indirect_is_exclusive(opcode: u8)
    ensures
        (decode(opcode) matches Some(entry) && entry.addressing_mode == AddressingMode::Indirect)
            <==> opcode == INDIRECT_JUMP_OPCODE,
{
}

/// Every mnemonic of the standard table has three characters.
pub proof fn lemma_mnemonics_have_three_characters(opcode: u8)
    requires
        decode(opcode) is Some,
    ensures
        decode(opcode)->0.name@.len() == 3,
{
    reveal_strlit("ADC");
    reveal_strlit("AND");
    reveal_strlit("ASL");
    reveal_strlit("BCC");
    reveal_strlit("BCS");
    reveal_strlit("BEQ");
    reveal_strlit("BMI");
    reveal_strlit("BNE");
    reveal_strlit("BPL");
    reveal_strlit("BRK");
    reveal_strlit("BVC");
    reveal_strlit("BVS");
    reveal_strlit("CLC");
    reveal_strlit("CLV");
    reveal_strlit("CMP");
    reveal_strlit("CPX");
    reveal_strlit("DEC");
    reveal_strlit("DEX");
    reveal_strlit("EOR");
    reveal_strlit("INC");
    reveal_strlit("INX");
    reveal_strlit("JMP");
    reveal_strlit("LDA");
    reveal_strlit("LDY");
    reveal_strlit("ORA");
    reveal_strlit("SBC");
    reveal_strlit("TAX");
    reveal_strlit("TXA");
}

/// The standard table offers the load of the accumulator, `LDA`, in eight
/// addressing modes and in no other.
pub proof fn lemma_lda_modes(mode: AddressingMode)
    ensures
        standard_pairs("LDA"@, mode) <==> (mode == AddressingMode::Immediate || mode
            == AddressingMode::ZeroPage || mode == AddressingMode::ZeroPage_X || mode
            == AddressingMode::Absolute || mode == AddressingMode::Absolute_X || mode
            == AddressingMode::Absolute_Y || mode == AddressingMode::Indexed_Indirect_X || mode
            == AddressingMode::Indirect_indexed_Y),
{
    reveal_strlit("ADC");
    reveal_strlit("AND");
    reveal_strlit("ASL");
    reveal_strlit("BCC");
    reveal_strlit("BCS");
    reveal_strlit("BEQ");
    reveal_strlit("BMI");
    reveal_strlit("BNE");
    reveal_strlit("BPL");
    reveal_strlit("BRK");
    reveal_strlit("BVC");
    reveal_strlit("BVS");
    reveal_strlit("CLC");
    reveal_strlit("CLV");
    reveal_strlit("CMP");
    reveal_strlit("CPX");
    reveal_strlit("DEC");
    reveal_strlit("DEX");
    reveal_strlit("EOR");
    reveal_strlit("INC");
    reveal_strlit("INX");
    reveal_strlit("JMP");
    reveal_strlit("LDA");
    reveal_strlit("LDY");
    reveal_strlit("ORA");
    reveal_strlit("SBC");
    reveal_strlit("TAX");
    reveal_strlit("TXA");
    if standard_pairs("LDA"@, mode) {
        let opcode = choose|opcode: u8|
            (#[trigger] decode(opcode)) matches Some(entry) && entry.name@ == "LDA"@
                && entry.addressing_mode == mode;
        assert(decode(opcode)->0.name@[0] == 'L' && decode(opcode)->0.name@[2] == 'A');
    }
    assert(decode(0xA9) is Some);
    assert(decode(0xA5) is Some);
    assert(decode(0xB5) is Some);
    assert(decode(0xAD) is Some);
    assert(decode(0xBD) is Some);
    assert(decode(0xB9) is Some);
    assert(decode(0xA1) is Some);
    assert(decode(0xB1) is Some);
}

} // verus!
