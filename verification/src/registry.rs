//! The table that binds an identifier to the one entry registered under it.
//! Taking an entry out and clearing its slot are a single step, so no entry
//! can be handed out twice.
//!
//! The table is a list of slots that is searched in order. It holds one
//! entry per running session, and an entry has to come out by value when it
//! is replaced or taken, with the identifiers compared as texts.

use vstd::prelude::*;
use crate::text::same_text;

verus! {

/// What `table` holds under `id`, if anything.
pub open spec fn occupant<T>(table: Map<Seq<char>, T>, id: Seq<char>) -> Option<T> {
    if table.contains_key(id) {
        Some(table[id])
    } else {
        None
    }
}

/// A table with at most one entry per identifier.
pub struct Registry<T> {
    slots: Vec<(String, T)>,
}

/// No identifier stands in two slots.
pub open spec fn distinct_ids<T>(slots: Seq<(String, T)>) -> bool {
    forall|i: int, j: int|
        0 <= i < slots.len() && 0 <= j < slots.len() && #[trigger] slots[i].0@ == #[trigger] slots[j].0@
            ==> i == j
}

/// Some slot holds `id`.
pub open spec fn holds_id<T>(slots: Seq<(String, T)>, id: Seq<char>) -> bool {
    exists|i: int| 0 <= i < slots.len() && #[trigger] slots[i].0@ == id
}

/// The position of the slot that holds `id`.
pub open spec fn slot_of<T>(slots: Seq<(String, T)>, id: Seq<char>) -> int {
    choose|i: int| 0 <= i < slots.len() && #[trigger] slots[i].0@ == id
}

/// The table that a sequence of slots stands for.
pub open spec fn table_of<T>(slots: Seq<(String, T)>) -> Map<Seq<char>, T> {
    Map::new(|id: Seq<char>| holds_id(slots, id), |id: Seq<char>| slots[slot_of(slots, id)].1)
}

/// Finds the slot that holds `id`.
fn find_slot<T>(slots: &Vec<(String, T)>, id: &str) -> (found: Option<usize>)
    ensures
        match found {
            Some(i) => i < slots@.len() && slots@[i as int].0@ == id@,
            None => !holds_id(slots@, id@),
        },
{
    let n: usize = slots.len();
    let mut i: usize = 0;
    while i < n
        invariant
            n == slots@.len(),
            i <= n,
            forall|j: int| 0 <= j < i ==> slots@[j].0@ != id@,
        decreases n - i,
    {
        if same_text(slots[i].0.as_str(), id) {
            return Some(i);
        }
        i += 1;
    }
    None
}

impl<T> View for Registry<T> {
    type V = Map<Seq<char>, T>;

    closed spec fn view(&self) -> Map<Seq<char>, T> {
        table_of(self.slots@)
    }
}

impl<T> Registry<T> {
    #[verifier::type_invariant]
    spec fn well_formed(self) -> bool {
        distinct_ids(self.slots@)
    }

    /// An empty table.
    pub fn new() -> (table: Self)
        ensures
            table@ == Map::<Seq<char>, T>::empty(),
    {
        let table = Registry { slots: Vec::new() };
        assert(table@ =~= Map::<Seq<char>, T>::empty());
        table
    }

    /// The number of entries.
    pub fn len(&self) -> (n: usize)
        ensures
            n == self@.len(),
            self@.dom().finite(),
    {
        proof {
            use_type_invariant(self);
            lemma_table_len(self.slots@);
        }
        self.slots.len()
    }

    /// Whether an entry is registered under `id`.
    pub fn contains(&self, id: &str) -> (found: bool)
        ensures
            found == self@.contains_key(id@),
    {
        find_slot(&self.slots, id).is_some()
    }

    /// The entry registered under `id`, if there is one.
    pub fn get(&self, id: &str) -> (found: Option<&T>)
        ensures
            found is Some <==> self@.contains_key(id@),
            found is Some ==> *found->0 == self@[id@],
    {
        proof {
            use_type_invariant(self);
        }
        match find_slot(&self.slots, id) {
            Some(i) => Some(&self.slots[i].1),
            None => None,
        }
    }

    /// Registers `entry` under `id` and hands back the entry that it
    /// replaces, if there was one.
    pub fn insert(&mut self, id: String, entry: T) -> (prior: Option<T>)
        ensures
            final(self)@ == old(self)@.insert(id@, entry),
            prior == occupant(old(self)@, id@),
    {
        proof {
            use_type_invariant(&*self);
        }
        let mut slots: Vec<(String, T)> = Vec::new();
        std::mem::swap(&mut slots, &mut self.slots);
        let ghost before = slots@;
        let prior = match find_slot(&slots, id.as_str()) {
            Some(i) => {
                let (_, old_entry) = slots.remove(i);
                proof {
                    lemma_remove_slot(before, i as int);
                }
                Some(old_entry)
            },
            None => {
                assert(table_of(before).remove(id@) =~= table_of(before));
                None
            },
        };
        let ghost middle = slots@;
        slots.push((id, entry));
        proof {
            lemma_push_slot(middle, id, entry);
            assert(table_of(before).remove(id@).insert(id@, entry) =~= table_of(before).insert(
                id@,
                entry,
            ));
        }
        self.slots = slots;
        prior
    }

    /// Takes the entry registered under `id` out of the table, if there is
    /// one. Afterwards nothing is registered under `id`.
    pub fn remove(&mut self, id: &str) -> (taken: Option<T>)
        ensures
            final(self)@ == old(self)@.remove(id@),
            taken == occupant(old(self)@, id@),
    {
        proof {
            use_type_invariant(&*self);
        }
        let mut slots: Vec<(String, T)> = Vec::new();
        std::mem::swap(&mut slots, &mut self.slots);
        let ghost before = slots@;
        let taken = match find_slot(&slots, id) {
            Some(i) => {
                let (_, entry) = slots.remove(i);
                proof {
                    lemma_remove_slot(before, i as int);
                }
                Some(entry)
            },
            None => {
                assert(table_of(before).remove(id@) =~= table_of(before));
                None
            },
        };
        self.slots = slots;
        taken
    }
}

/// Removing the slot at `at` removes its identifier from the table and
/// leaves every other entry as it was.
proof fn lemma_remove_slot<T>(slots: Seq<(String, T)>, at: int)
    requires
        distinct_ids(slots),
        0 <= at < slots.len(),
    ensures
        distinct_ids(slots.remove(at)),
        table_of(slots.remove(at)) == table_of(slots).remove(slots[at].0@),
        table_of(slots).contains_key(slots[at].0@),
        table_of(slots)[slots[at].0@] == slots[at].1,
{
    let rest = slots.remove(at);
    let gone = slots[at].0@;
    assert(holds_id(slots, gone));
    assert forall|id: Seq<char>| holds_id(rest, id) <==> (holds_id(slots, id) && id != gone) by {
        if holds_id(rest, id) {
            let i = slot_of(rest, id);
            let k = if i < at { i } else { i + 1 };
            assert(slots[k].0@ == id);
        }
        if holds_id(slots, id) && id != gone {
            let k = slot_of(slots, id);
            let i = if k < at { k } else { k - 1 };
            assert(rest[i].0@ == id);
        }
    }
    assert forall|id: Seq<char>| holds_id(rest, id) implies rest[slot_of(rest, id)].1
        == slots[slot_of(slots, id)].1 by {
        let i = slot_of(rest, id);
        let k = if i < at { i } else { i + 1 };
        assert(slots[k].0@ == id);
        assert(slots[slot_of(slots, id)].0@ == id);
    }
    assert(distinct_ids(rest)) by {
        assert forall|i: int, j: int|
            0 <= i < rest.len() && 0 <= j < rest.len() && #[trigger] rest[i].0@
                == #[trigger] rest[j].0@ implies i == j by {
            let a = if i < at { i } else { i + 1 };
            let b = if j < at { j } else { j + 1 };
            assert(slots[a].0@ == slots[b].0@);
        }
    }
    assert(table_of(rest) =~= table_of(slots).remove(gone));
}

/// Appending a slot for an identifier that no slot holds adds it to the
/// table and leaves every other entry as it was.
proof fn lemma_push_slot<T>(slots: Seq<(String, T)>, id: String, entry: T)
    requires
        distinct_ids(slots),
        !holds_id(slots, id@),
    ensures
        distinct_ids(slots.push((id, entry))),
        table_of(slots.push((id, entry))) == table_of(slots).insert(id@, entry),
{
    let more = slots.push((id, entry));
    let n = slots.len() as int;
    assert(more[n].0@ == id@);
    assert forall|key: Seq<char>| holds_id(more, key) <==> (holds_id(slots, key) || key == id@) by {
        if holds_id(more, key) {
            let i = slot_of(more, key);
            if i < n {
                assert(slots[i].0@ == key);
            }
        }
        if holds_id(slots, key) {
            let i = slot_of(slots, key);
            assert(more[i].0@ == key);
        }
    }
    assert(distinct_ids(more)) by {
        assert forall|i: int, j: int|
            0 <= i < more.len() && 0 <= j < more.len() && #[trigger] more[i].0@
                == #[trigger] more[j].0@ implies i == j by {
            if i < n && j < n {
                assert(slots[i].0@ == slots[j].0@);
            } else if i < n {
                assert(slots[i].0@ == id@);
            } else if j < n {
                assert(slots[j].0@ == id@);
            }
        }
    }
    assert forall|key: Seq<char>| holds_id(more, key) implies more[slot_of(more, key)].1 == (if key
        == id@ {
        entry
    } else {
        slots[slot_of(slots, key)].1
    }) by {
        let i = slot_of(more, key);
        if key == id@ {
            assert(more[n].0@ == more[i].0@);
        } else {
            assert(slots[i].0@ == key);
            assert(slots[slot_of(slots, key)].0@ == key);
        }
    }
    assert(table_of(more) =~= table_of(slots).insert(id@, entry));
}

/// A table has as many entries as it has slots.
proof fn lemma_table_len<T>(slots: Seq<(String, T)>)
    requires
        distinct_ids(slots),
    ensures
        table_of(slots).dom().finite(),
        table_of(slots).len() == slots.len(),
    decreases slots.len(),
{
    if slots.len() == 0 {
        assert(table_of(slots) =~= Map::<Seq<char>, T>::empty());
    } else {
        let at = slots.len() - 1;
        lemma_remove_slot(slots, at);
        let rest = slots.remove(at);
        lemma_table_len(rest);
        let gone = slots[at].0@;
        assert(table_of(slots).dom() =~= table_of(rest).dom().insert(gone));
    }
}

/// An entry is handed out at most once: once it has been taken out, nothing
/// is registered under its identifier, so a second taker finds nothing.
pub proof fn taken_at_most_once<T>(table: Map<Seq<char>, T>, id: Seq<char>)
    ensures
        occupant(table.remove(id), id) is None,
        occupant(table.remove(id).remove(id), id) is None,
        table.remove(id).remove(id) == table.remove(id),
{
    assert(table.remove(id).remove(id) =~= table.remove(id));
}

/// An identifier is bound to one entry at a time: what is registered under
/// it replaces what was there, and is what the next taker gets.
pub proof fn insert_supersedes<T>(table: Map<Seq<char>, T>, id: Seq<char>, first: T, second: T)
    ensures
        occupant(table.insert(id, first), id) == Some(first),
        occupant(table.insert(id, first).insert(id, second), id) == Some(second),
        table.insert(id, first).insert(id, second) == table.insert(id, second),
        table.insert(id, first).remove(id) == table.remove(id),
{
    assert(table.insert(id, first).insert(id, second) =~= table.insert(id, second));
    assert(table.insert(id, first).remove(id) =~= table.remove(id));
}

/// Registering or taking out under one identifier leaves what is registered
/// under every other identifier as it was.
pub proof fn others_untouched<T>(table: Map<Seq<char>, T>, id: Seq<char>, entry: T, other: Seq<char>)
    requires
        other != id,
    ensures
        occupant(table.insert(id, entry), other) == occupant(table, other),
        occupant(table.remove(id), other) == occupant(table, other),
{
}

} // verus!
