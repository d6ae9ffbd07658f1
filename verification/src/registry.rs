use std::collections::HashMap;
use vstd::prelude::*;
use vstd::std_specs::iter::IteratorSpec;
use crate::instruction::Instruction;
use crate::lemmas::lemma_enumeration_fixes_map;
use crate::table::{decode, instruction_table, standard_map, STANDARD_ENTRY_COUNT};

verus! {

broadcast use vstd::std_specs::hash::group_hash_axioms;

/// Why a list of entries cannot become a registry.
#[derive(Clone, Copy, Debug, PartialEq, Eq, Structural)]
pub enum TableError {
    /// The opcode is carried by this entry and by an earlier one.
    DuplicateOpcode(u8),
    /// The entry for this opcode records a length that its addressing mode
    /// does not imply.
    LengthMismatch(u8),
}

/// `list` enumerates `map`: every element of the list is what the map holds
/// at its opcode, no two elements share an opcode, and every key of the map is
/// the opcode of an element. The order of the list is free.
pub open spec fn enumerates(list: Seq<Instruction>, map: Map<u8, Instruction>) -> bool {
    &&& forall|i: int|
        0 <= i < list.len() ==> map.contains_key(#[trigger] list[i].opcode) && map[list[i].opcode]
            == list[i]
    &&& forall|i: int, j: int|
        0 <= i < j < list.len() ==> (#[trigger] list[i]).opcode != (#[trigger] list[j]).opcode
    &&& forall|opcode: u8| #[trigger]
        map.contains_key(opcode) ==> exists|i: int|
            0 <= i < list.len() && (#[trigger] list[i]).opcode == opcode
}

/// A list that can become a registry: every recorded length fits its
/// addressing mode, and no opcode occurs twice.
pub open spec fn well_formed(list: Seq<Instruction>) -> bool {
    &&& forall|i: int| 0 <= i < list.len() ==> (#[trigger] list[i]).spec_length_consistent()
    &&& forall|i: int, j: int|
        0 <= i < j < list.len() ==> (#[trigger] list[i]).opcode != (#[trigger] list[j]).opcode
}

/// What is wrong with the element at `i`, given the elements before it. A
/// length that does not fit is reported before a repeated opcode.
pub open spec fn fault_at(list: Seq<Instruction>, i: int) -> Option<TableError>
    recommends
        0 <= i < list.len(),
{
    if !list[i].spec_length_consistent() {
        Some(TableError::LengthMismatch(list[i].opcode))
    } else if exists|j: int| 0 <= j < i && (#[trigger] list[j]).opcode == list[i].opcode {
        Some(TableError::DuplicateOpcode(list[i].opcode))
    } else {
        None
    }
}

/// `error` is the fault of the first faulty element of `list`.
pub open spec fn is_first_fault(list: Seq<Instruction>, error: TableError) -> bool {
    exists|i: int|
        0 <= i < list.len() && #[trigger] fault_at(list, i) == Some(error) && forall|k: int|
            0 <= k < i ==> #[trigger] fault_at(list, k) is None
}

/// What a lookup of `opcode` finds in `map`.
pub open spec fn lookup_in(map: Map<u8, Instruction>, opcode: u8) -> Option<Instruction> {
    if map.contains_key(opcode) {
        Some(map[opcode])
    } else {
        None
    }
}

/// Every entry sits at its own opcode and records a length that fits its
/// addressing mode.
pub open spec fn keyed_and_consistent(map: Map<u8, Instruction>) -> bool {
    forall|opcode: u8| #[trigger]
        map.contains_key(opcode) ==> map[opcode].opcode == opcode
            && map[opcode].spec_length_consistent()
}

/// An immutable map from opcode to instruction. Every entry sits at its own
/// opcode and records a length that fits its addressing mode.
#[derive(Debug)]
pub struct Registry {
    map: HashMap<u8, Instruction>,
}

impl View for Registry {
    type V = Map<u8, Instruction>;

    closed spec fn view(&self) -> Map<u8, Instruction> {
        self.map@
    }
}

impl Clone for Registry {
    fn clone(&self) -> (copy: Self)
        ensures
            copy@ == self@,
    {
        proof {
            use_type_invariant(self);
        }
        Registry { map: self.map.clone() }
    }
}

impl Registry {
    #[verifier::type_invariant]
    spec fn sound(&self) -> bool {
        keyed_and_consistent(self.map@)
    }

    /// What a lookup of `opcode` finds.
    pub open spec fn spec_lookup(&self, opcode: u8) -> Option<Instruction> {
        lookup_in(self@, opcode)
    }

    /// Folds a list of entries into a registry, checking each entry on the
    /// way. The first entry whose length does not fit its addressing mode, or
    /// whose opcode an earlier entry carries, stops the construction: no
    /// registry comes of a list that would shadow an entry or hold a wrong
    /// length.
    pub fn from_entries(entries: &[Instruction]) -> (result: Result<Registry, TableError>)
        ensures
            result is Ok <==> well_formed(entries@),
            result matches Ok(registry) ==> enumerates(entries@, registry@) && registry@.len()
                == entries@.len(),
            forall|error: TableError|
                result == Err::<Registry, TableError>(error) <==> is_first_fault(entries@, error),
    {
        let mut map: HashMap<u8, Instruction> = HashMap::new();
        let mut i: usize = 0;
        while i < entries.len()
            invariant
                0 <= i <= entries@.len(),
                map@.dom().finite(),
                map@.len() == i,
                keyed_and_consistent(map@),
                forall|k: int|
                    0 <= k < i ==> map@.contains_key(#[trigger] entries@[k].opcode)
                        && map@[entries@[k].opcode] == entries@[k],
                forall|k: int, l: int|
                    0 <= k < l < i ==> (#[trigger] entries@[k]).opcode != (
                    #[trigger] entries@[l]).opcode,
                forall|opcode: u8| #[trigger]
                    map@.contains_key(opcode) ==> exists|k: int|
                        0 <= k < i && (#[trigger] entries@[k]).opcode == opcode,
                forall|k: int| 0 <= k < i ==> #[trigger] fault_at(entries@, k) is None,
            decreases entries@.len() - i,
        {
            let entry = entries[i];
            if !entry.length_consistent() {
                proof {
                    assert(fault_at(entries@, i as int) == Some(
                        TableError::LengthMismatch(entry.opcode),
                    ));
                }
                return Err(TableError::LengthMismatch(entry.opcode));
            }
            if map.contains_key(&entry.opcode) {
                proof {
                    let k = choose|k: int|
                        0 <= k < i && (#[trigger] entries@[k]).opcode == entry.opcode;
                    assert(entries@[k].opcode == entries@[i as int].opcode);
                    assert(fault_at(entries@, i as int) == Some(
                        TableError::DuplicateOpcode(entry.opcode),
                    ));
                }
                return Err(TableError::DuplicateOpcode(entry.opcode));
            }
            proof {
                assert(fault_at(entries@, i as int) is None);
            }
            map.insert(entry.opcode, entry);
            i += 1;
        }
        Ok(Registry { map })
    }

    /// The registry of the standard table. It is built from
    /// [`instruction_table`] with every check of [`Registry::from_entries`].
    /// That no check fails on that list is proved, so the construction always
    /// succeeds.
    pub fn new() -> (registry: Registry)
        ensures
            registry@ == standard_map(),
            registry@.len() == STANDARD_ENTRY_COUNT,
            forall|opcode: u8| #[trigger] registry.spec_lookup(opcode) == decode(opcode),
    {
        let table = instruction_table();
        proof {
            assert forall|i: int| 0 <= i < table@.len() implies (
            #[trigger] table@[i]).spec_length_consistent() by {
                assert(decode(table@[i].opcode) == Some(table@[i]));
            }
        }
        let built = Registry::from_entries(table.as_slice());
        proof {
            assert(built is Ok);
            lemma_enumeration_fixes_map(table@, built->Ok_0@, standard_map());
        }
        built.unwrap()
    }

    /// The entry for `opcode`, or `None` where the registry defines none.
    pub fn lookup(&self, opcode: u8) -> (found: Option<Instruction>)
        ensures
            found == self.spec_lookup(opcode),
            found matches Some(instruction) ==> instruction.opcode == opcode
                && instruction.spec_length_consistent(),
    {
        proof {
            use_type_invariant(self);
        }
        match self.map.get(&opcode) {
            Some(instruction) => Some(*instruction),
            None => None,
        }
    }

    /// Every entry of the registry, each once. The order is that of the hash
    /// map and means nothing. The list is one that [`Registry::from_entries`]
    /// accepts, and it gives this registry back.
    pub fn all(&self) -> (entries: Vec<Instruction>)
        ensures
            entries@.len() == self@.len(),
            enumerates(entries@, self@),
            well_formed(entries@),
    {
        proof {
            use_type_invariant(self);
        }
        let mut entries: Vec<Instruction> = Vec::new();
        let ghost pairs = self.map.iter().remaining();
        for pair in walk: self.map.iter()
            invariant
                walk.seq() == pairs,
                entries@.len() == walk.index(),
                forall|k: int| 0 <= k < entries@.len() ==> entries@[k] == *(#[trigger] pairs[k]).1,
        {
            entries.push(*pair.1);
        }
        proof {
            assert(entries@.len() == pairs.len());
            assert forall|i: int| 0 <= i < entries@.len() implies self@.contains_key(
                (#[trigger] entries@[i]).opcode,
            ) && self@[entries@[i].opcode] == entries@[i] by {
                assert(self.map@.contains_key(*pairs[i].0) && self.map@[*pairs[i].0] == *pairs[i].1);
            }
            assert forall|i: int, j: int| 0 <= i < j < entries@.len() implies (
            #[trigger] entries@[i]).opcode != (#[trigger] entries@[j]).opcode by {
                assert(self.map@.contains_key(*pairs[i].0) && self.map@[*pairs[i].0] == *pairs[i].1);
                assert(self.map@.contains_key(*pairs[j].0) && self.map@[*pairs[j].0] == *pairs[j].1);
                assert(pairs[i] != pairs[j]);
            }
            assert forall|opcode: u8| #[trigger] self@.contains_key(opcode) implies exists|i: int|
                0 <= i < entries@.len() && (#[trigger] entries@[i]).opcode == opcode by {
                let pair = (&opcode, &self.map@[opcode]);
                assert(pairs.contains(pair));
                let i = choose|i: int| 0 <= i < pairs.len() && pairs[i] == pair;
                assert(entries@[i].opcode == opcode);
            }
        }
        entries
    }

    /// The number of opcodes that the registry defines.
    pub fn len(&self) -> (count: usize)
        ensures
            count == self@.len(),
    {
        self.map.len()
    }
}

} // verus!
