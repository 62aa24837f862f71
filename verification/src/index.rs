//! The finished index: from the name of an instruction to its record.

use vstd::prelude::*;
use crate::instruction::{Instruction, InstructionView};
use crate::text::str_eq;

verus! {

/// The map that a sequence of instructions stands for: each name leads to the
/// last instruction that carries it.
pub open spec fn index_of(entries: Seq<InstructionView>) -> Map<Seq<char>, InstructionView>
    decreases entries.len(),
{
    if entries.len() == 0 {
        Map::empty()
    } else {
        index_of(entries.drop_last()).insert(entries.last().name, entries.last())
    }
}

/// No two entries carry the same name.
pub open spec fn distinct_names(entries: Seq<InstructionView>) -> bool {
    forall|i: int, j: int|
        0 <= i < j < entries.len() ==> (#[trigger] entries[i]).name != (#[trigger] entries[j]).name
}

/// The instructions of a vector in specifications, in their order.
pub open spec fn instruction_views(entries: Seq<Instruction>) -> Seq<InstructionView> {
    Seq::new(entries.len(), |i: int| entries[i]@)
}

/// The names that lead somewhere are those of the entries.
pub proof fn lemma_index_of_keys(entries: Seq<InstructionView>, name: Seq<char>)
    ensures
        index_of(entries).contains_key(name) <==> exists|i: int|
            0 <= i < entries.len() && (#[trigger] entries[i]).name == name,
    decreases entries.len(),
{
    if entries.len() > 0 {
        let front = entries.drop_last();
        lemma_index_of_keys(front, name);
        if index_of(entries).contains_key(name) {
            if entries.last().name == name {
                assert(entries[entries.len() - 1].name == name);
            } else {
                let i = choose|i: int| 0 <= i < front.len() && (#[trigger] front[i]).name == name;
                assert(entries[i].name == name);
            }
        }
        if exists|i: int| 0 <= i < entries.len() && (#[trigger] entries[i]).name == name {
            let i = choose|i: int| 0 <= i < entries.len() && (#[trigger] entries[i]).name == name;
            if i < front.len() {
                assert(front[i].name == name);
            }
        }
    }
}

/// Where no name occurs twice, each entry is found under its own name.
pub proof fn lemma_index_of_entry(entries: Seq<InstructionView>, i: int)
    requires
        distinct_names(entries),
        0 <= i < entries.len(),
    ensures
        index_of(entries).contains_key(entries[i].name),
        index_of(entries)[entries[i].name] == entries[i],
    decreases entries.len(),
{
    let front = entries.drop_last();
    if i < entries.len() - 1 {
        assert(front[i] == entries[i]);
        assert(entries[i].name != entries[entries.len() - 1].name);
        lemma_index_of_entry(front, i);
    }
}

/// Where no name occurs twice, putting an instruction in the place of the
/// entry that carries its name is an insertion into the map.
pub proof fn lemma_index_of_update(entries: Seq<InstructionView>, i: int, entry: InstructionView)
    requires
        distinct_names(entries),
        0 <= i < entries.len(),
        entries[i].name == entry.name,
    ensures
        distinct_names(entries.update(i, entry)),
        index_of(entries.update(i, entry)) == index_of(entries).insert(entry.name, entry),
    decreases entries.len(),
{
    let updated = entries.update(i, entry);
    let front = entries.drop_last();
    assert forall|a: int, b: int| 0 <= a < b < updated.len() implies (#[trigger] updated[a]).name
        != (#[trigger] updated[b]).name by {
        assert(entries[a].name != entries[b].name);
    }
    if i == entries.len() - 1 {
        assert(updated.drop_last() =~= front);
        assert(index_of(updated) =~= index_of(entries).insert(entry.name, entry));
    } else {
        assert(updated.drop_last() =~= front.update(i, entry));
        assert(front[i] == entries[i]);
        assert(entries[i].name != entries[entries.len() - 1].name);
        lemma_index_of_update(front, i, entry);
        assert(index_of(updated) =~= index_of(entries).insert(entry.name, entry));
    }
}

/// Where no name occurs twice, the map has as many keys as there are entries.
pub proof fn lemma_index_of_len(entries: Seq<InstructionView>)
    requires
        distinct_names(entries),
    ensures
        index_of(entries).dom().finite(),
        index_of(entries).len() == entries.len(),
    decreases entries.len(),
{
    if entries.len() > 0 {
        let front = entries.drop_last();
        lemma_index_of_len(front);
        lemma_index_of_keys(front, entries.last().name);
        if index_of(front).contains_key(entries.last().name) {
            let i = choose|i: int|
                0 <= i < front.len() && (#[trigger] front[i]).name == entries.last().name;
            assert(entries[i].name == entries[entries.len() - 1].name);
        }
    }
}

/// The index of instructions by name. It is filled while a document is read
/// and only read afterwards. A name leads to at most one instruction: the
/// one that was inserted last under it.
#[derive(Debug)]
pub struct InstructionIndex {
    entries: Vec<Instruction>,
}

impl View for InstructionIndex {
    type V = Map<Seq<char>, InstructionView>;

    closed spec fn view(&self) -> Map<Seq<char>, InstructionView> {
        index_of(instruction_views(self.entries@))
    }
}

impl InstructionIndex {
    #[verifier::type_invariant]
    spec fn names_are_distinct(self) -> bool {
        distinct_names(instruction_views(self.entries@))
    }

    /// An index without entries.
    pub fn new() -> (index: InstructionIndex)
        ensures
            index@ == Map::<Seq<char>, InstructionView>::empty(),
    {
        let index = InstructionIndex { entries: Vec::new() };
        assert(instruction_views(index.entries@) =~= Seq::empty());
        index
    }

    /// The position of the entry with the given name.
    fn position(&self, name: &str) -> (found: Option<usize>)
        ensures
            found matches Some(i) ==> i < self.entries@.len() && self.entries@[i as int]@.name
                == name@,
            found is None ==> forall|i: int|
                0 <= i < self.entries@.len() ==> (#[trigger] self.entries@[i])@.name != name@,
    {
        let mut i: usize = 0;
        while i < self.entries.len()
            invariant
                i <= self.entries@.len(),
                forall|j: int| 0 <= j < i ==> (#[trigger] self.entries@[j])@.name != name@,
            decreases self.entries.len() - i,
        {
            if str_eq(self.entries[i].name.as_str(), name) {
                return Some(i);
            }
            i += 1;
        }
        None
    }

    /// Puts an instruction under its name. An instruction that was there under
    /// the same name is replaced, whole.
    pub fn insert(&mut self, instruction: Instruction)
        ensures
            final(self)@ == old(self)@.insert(instruction@.name, instruction@),
    {
        proof {
            use_type_invariant(&*self);
        }
        let found = self.position(instruction.name.as_str());
        let mut taken = InstructionIndex::new();
        core::mem::swap(self, &mut taken);
        let mut entries = taken.entries;
        let ghost before = instruction_views(entries@);
        let ghost added = instruction@;
        match found {
            Some(i) => {
                proof {
                    lemma_index_of_update(before, i as int, added);
                }
                entries[i] = instruction;
                assert(instruction_views(entries@) =~= before.update(i as int, added));
            },
            None => {
                entries.push(instruction);
                let ghost after = instruction_views(entries@);
                assert(after.drop_last() =~= before);
                assert(after.last() == added);
                assert forall|a: int, b: int| 0 <= a < b < after.len() implies (
                #[trigger] after[a]).name != (#[trigger] after[b]).name by {
                    assert(after[a] == before[a]);
                    assert(before[a] == old(self).entries@[a]@);
                    if b < before.len() {
                        assert(after[b] == before[b]);
                    }
                }
            },
        }
        *self = InstructionIndex { entries };
    }

    /// The instruction with exactly the given name.
    pub fn get(&self, name: &str) -> (found: Option<&Instruction>)
        ensures
            found is Some <==> self@.contains_key(name@),
            found matches Some(instruction) ==> instruction@ == self@[name@],
    {
        proof {
            use_type_invariant(self);
            lemma_index_of_keys(instruction_views(self.entries@), name@);
        }
        match self.position(name) {
            Some(i) => {
                proof {
                    lemma_index_of_entry(instruction_views(self.entries@), i as int);
                    assert(instruction_views(self.entries@)[i as int].name == name@);
                }
                Some(&self.entries[i])
            },
            None => {
                assert forall|i: int| 0 <= i < self.entries@.len() implies (
                #[trigger] instruction_views(self.entries@)[i]).name != name@ by {
                    assert(self.entries@[i]@.name != name@);
                }
                None
            },
        }
    }

    /// The number of instructions in the index.
    pub fn len(&self) -> (count: usize)
        ensures
            self@.dom().finite(),
            count == self@.len(),
    {
        proof {
            use_type_invariant(self);
            lemma_index_of_len(instruction_views(self.entries@));
        }
        self.entries.len()
    }

    /// Whether the index holds no instruction.
    pub fn is_empty(&self) -> (empty: bool)
        ensures
            empty == (self@ == Map::<Seq<char>, InstructionView>::empty()),
    {
        proof {
            use_type_invariant(self);
            lemma_index_of_len(instruction_views(self.entries@));
            if self.entries@.len() == 0 {
                assert(instruction_views(self.entries@) =~= Seq::empty());
            }
        }
        self.entries.len() == 0
    }
}

} // verus!
