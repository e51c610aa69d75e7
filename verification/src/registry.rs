use std::collections::HashMap;
use vstd::prelude::*;
use vstd::std_specs::hash::*;

verus! {

/// No two slots of the sequence carry the same id.
pub open spec fn distinct_ids<V>(s: Seq<(u128, V)>) -> bool {
    forall|i: int, j: int| 0 <= i < j < s.len() ==> s[i].0 != s[j].0
}

/// Some slot of the sequence carries `id`.
pub open spec fn has_id<V>(s: Seq<(u128, V)>, id: u128) -> bool {
    exists|i: int| 0 <= i < s.len() && #[trigger] s[i].0 == id
}

/// Index of a slot that carries `id`; meaningful when `has_id(s, id)`.
pub open spec fn position<V>(s: Seq<(u128, V)>, id: u128) -> int {
    choose|i: int| 0 <= i < s.len() && #[trigger] s[i].0 == id
}

/// The entry stored under `id`; meaningful when `has_id(s, id)`.
pub open spec fn lookup<V>(s: Seq<(u128, V)>, id: u128) -> V {
    s[position(s, id)].1
}

/// The sequence after storing `value` under `id`: an existing slot is
/// overwritten in place, a new id is appended at the end.
pub open spec fn put<V>(s: Seq<(u128, V)>, id: u128, value: V) -> Seq<(u128, V)> {
    if has_id(s, id) {
        s.update(position(s, id), (id, value))
    } else {
        s.push((id, value))
    }
}

/// The sequence after dropping the slot of `id`, if there is one.
pub open spec fn without<V>(s: Seq<(u128, V)>, id: u128) -> Seq<(u128, V)> {
    if has_id(s, id) {
        s.remove(position(s, id))
    } else {
        s
    }
}

/// In a sequence with distinct ids the slot of an id is determined by the id.
pub proof fn lemma_position_unique<V>(s: Seq<(u128, V)>, i: int)
    requires
        distinct_ids(s),
        0 <= i < s.len(),
    ensures
        has_id(s, s[i].0),
        position(s, s[i].0) == i,
        lookup(s, s[i].0) == s[i].1,
{
    let id = s[i].0;
    assert(0 <= i < s.len() && s[i].0 == id);
    let p = position(s, id);
    assert(0 <= p < s.len() && s[p].0 == id);
    if p < i {
        assert(s[p].0 != s[i].0);
    } else if i < p {
        assert(s[i].0 != s[p].0);
    }
}

/// Storing under an id keeps the ids distinct, makes the id present with the
/// stored entry, and leaves every other id as it was.
pub proof fn lemma_put<V>(s: Seq<(u128, V)>, id: u128, value: V)
    requires
        distinct_ids(s),
    ensures
        distinct_ids(put(s, id, value)),
        has_id(put(s, id, value), id),
        lookup(put(s, id, value), id) == value,
        forall|other: u128|
            other != id ==> (has_id(put(s, id, value), other) <==> has_id(s, other)),
        forall|other: u128|
            other != id && has_id(s, other) ==> lookup(put(s, id, value), other) == lookup(
                s,
                other,
            ),
        put(s, id, value).len() == if has_id(s, id) { s.len() } else { s.len() + 1 },
{
    let t = put(s, id, value);
    let k: int = if has_id(s, id) { position(s, id) } else { s.len() as int };
    if has_id(s, id) {
        assert(0 <= k < s.len() && s[k].0 == id);
    }
    assert(t.len() == if has_id(s, id) { s.len() } else { s.len() + 1 });
    assert(0 <= k < t.len() && t[k] == (id, value));
    assert forall|i: int| 0 <= i < t.len() && i != k implies 0 <= i < s.len() && t[i] == s[i] by {}
    assert forall|i: int, j: int| 0 <= i < j < t.len() implies t[i].0 != t[j].0 by {
        if i == k {
            if has_id(s, id) {
                assert(s[k].0 != s[j].0);
            } else {
                assert(false);
            }
        } else if j == k {
            if has_id(s, id) {
                assert(s[i].0 != s[k].0);
            } else {
                assert(s[i].0 != id);
            }
        } else {
            assert(s[i].0 != s[j].0);
        }
    }
    assert(t[k].0 == id);
    assert(has_id(t, id));
    lemma_position_unique(t, k);
    assert forall|other: u128| other != id implies (has_id(t, other) <==> has_id(s, other)) by {
        if has_id(t, other) {
            let i = position(t, other);
            assert(0 <= i < t.len() && t[i].0 == other);
            assert(i != k);
            assert(s[i].0 == other);
        }
        if has_id(s, other) {
            let i = position(s, other);
            assert(0 <= i < s.len() && s[i].0 == other);
            assert(i != k);
            assert(t[i].0 == other);
        }
    }
    assert forall|other: u128| other != id && has_id(s, other) implies lookup(t, other) == lookup(
        s,
        other,
    ) by {
        let i = position(s, other);
        assert(0 <= i < s.len() && s[i].0 == other);
        assert(i != k);
        assert(t[i] == s[i]);
        lemma_position_unique(t, i);
    }
}

/// Dropping an id keeps the ids distinct, makes the id absent, and leaves
/// every other id as it was.
pub proof fn lemma_without<V>(s: Seq<(u128, V)>, id: u128)
    requires
        distinct_ids(s),
    ensures
        distinct_ids(without(s, id)),
        !has_id(without(s, id), id),
        forall|other: u128| other != id ==> (has_id(without(s, id), other) <==> has_id(s, other)),
        forall|other: u128|
            other != id && has_id(s, other) ==> lookup(without(s, id), other) == lookup(s, other),
        without(s, id).len() == if has_id(s, id) { s.len() - 1 } else { s.len() as int },
{
    let t = without(s, id);
    if has_id(s, id) {
        let k = position(s, id);
        assert(0 <= k < s.len() && s[k].0 == id);
        assert forall|i: int| 0 <= i < t.len() implies t[i] == (if i < k { s[i] } else { s[i + 1] }) by {}
        assert forall|i: int, j: int| 0 <= i < j < t.len() implies t[i].0 != t[j].0 by {
            let a = if i < k { i } else { i + 1 };
            let b = if j < k { j } else { j + 1 };
            assert(s[a].0 != s[b].0);
        }
        if has_id(t, id) {
            let i = position(t, id);
            assert(0 <= i < t.len() && t[i].0 == id);
            let a = if i < k { i } else { i + 1 };
            assert(s[a].0 == id);
            if a < k {
                assert(s[a].0 != s[k].0);
            } else {
                assert(s[k].0 != s[a].0);
            }
        }
        assert forall|other: u128| other != id implies (has_id(t, other) <==> has_id(s, other)) by {
            if has_id(t, other) {
                let i = position(t, other);
                assert(0 <= i < t.len() && t[i].0 == other);
                let a = if i < k { i } else { i + 1 };
                assert(s[a].0 == other);
            }
            if has_id(s, other) {
                let a = position(s, other);
                assert(0 <= a < s.len() && s[a].0 == other);
                assert(a != k);
                let i = if a < k { a } else { a - 1 };
                assert(t[i].0 == other);
            }
        }
        assert forall|other: u128| other != id && has_id(s, other) implies lookup(t, other)
            == lookup(s, other) by {
            let a = position(s, other);
            assert(0 <= a < s.len() && s[a].0 == other);
            assert(a != k);
            let i = if a < k { a } else { a - 1 };
            assert(t[i] == s[a]);
            lemma_position_unique(t, i);
        }
    } else {
        assert(t == s);
    }
}

/// What a registry holds: the entries in a hash map keyed by id, and the ids
/// in the order in which they first came in.
pub struct Table<V> {
    pub(crate) ids: Vec<u128>,
    pub(crate) entries: HashMap<u128, V>,
}

/// The slots that a list of ids and a map of entries stand for: one slot
/// for each id, in the list's order, with the entry that the map holds.
pub open spec fn slots_of<V>(ids: Seq<u128>, entries: Map<u128, V>) -> Seq<(u128, V)> {
    Seq::new(ids.len(), |i: int| (ids[i], entries[ids[i]]))
}

/// The list names each id once, and the map holds exactly the listed ids.
pub open spec fn listed<V>(ids: Seq<u128>, entries: Map<u128, V>) -> bool {
    &&& forall|i: int, j: int| 0 <= i < j < ids.len() ==> ids[i] != ids[j]
    &&& forall|i: int| 0 <= i < ids.len() ==> entries.contains_key(#[trigger] ids[i])
    &&& forall|id: u128| #[trigger]
        entries.contains_key(id) ==> exists|i: int| 0 <= i < ids.len() && #[trigger] ids[i] == id
}

/// The slots of a listed map carry distinct ids, and an id has a slot exactly
/// where the map holds it, with the map's entry.
pub proof fn lemma_slots_of<V>(ids: Seq<u128>, entries: Map<u128, V>)
    requires
        listed(ids, entries),
    ensures
        distinct_ids(slots_of(ids, entries)),
        forall|id: u128| has_id(slots_of(ids, entries), id) <==> entries.contains_key(id),
        forall|id: u128|
            entries.contains_key(id) ==> lookup(slots_of(ids, entries), id) == entries[id],
{
    let s = slots_of(ids, entries);
    assert forall|id: u128| has_id(s, id) <==> entries.contains_key(id) by {
        if has_id(s, id) {
            let i = position(s, id);
            assert(0 <= i < s.len() && s[i].0 == id);
            assert(ids[i] == id);
        }
        if entries.contains_key(id) {
            let i = choose|i: int| 0 <= i < ids.len() && #[trigger] ids[i] == id;
            assert(s[i].0 == id);
        }
    }
    assert forall|id: u128| entries.contains_key(id) implies lookup(s, id) == entries[id] by {
        let i = choose|i: int| 0 <= i < ids.len() && #[trigger] ids[i] == id;
        assert(s[i] == (id, entries[id]));
        lemma_position_unique(s, i);
    }
}

/// A table from 128-bit ids to entries. Each id is held at most once. The
/// entries are found by id through a hash map, and are walked in the order
/// in which their ids first came in, so that what a walk yields does not
/// hang on how the map happens to be laid out.
pub struct Registry<V> {
    pub(crate) table: Table<V>,
}

impl<V> View for Registry<V> {
    type V = Seq<(u128, V)>;

    closed spec fn view(&self) -> Seq<(u128, V)> {
        slots_of(self.table.ids@, self.table.entries@)
    }
}

impl<V> Registry<V> {
    #[verifier::type_invariant]
    pub closed spec fn well_formed(self) -> bool {
        listed(self.table.ids@, self.table.entries@)
    }

    /// An empty registry.
    pub fn new() -> (r: Self)
        ensures
            r@ == Seq::<(u128, V)>::empty(),
    {
        let r = Registry { table: Table { ids: Vec::new(), entries: HashMap::new() } };
        proof {
            assert(r@ =~= Seq::<(u128, V)>::empty());
        }
        r
    }

    /// The ids held are pairwise distinct.
    pub fn ids_are_distinct(&self)
        ensures
            distinct_ids(self@),
    {
        proof {
            use_type_invariant(self);
            lemma_slots_of(self.table.ids@, self.table.entries@);
        }
    }

    /// Number of entries.
    pub fn len(&self) -> (n: usize)
        ensures
            n == self@.len(),
    {
        self.table.ids.len()
    }

    /// Slot index of `id`, if the registry holds it.
    pub fn find(&self, id: u128) -> (r: Option<usize>)
        ensures
            distinct_ids(self@),
            r is Some <==> has_id(self@, id),
            r is Some ==> r->0 < self@.len() && r->0 == position(self@, id),
    {
        broadcast use group_hash_axioms;

        proof {
            use_type_invariant(self);
            lemma_slots_of(self.table.ids@, self.table.entries@);
        }
        if !self.table.entries.contains_key(&id) {
            return None;
        }
        let mut i: usize = 0;
        while i < self.table.ids.len()
            invariant
                distinct_ids(self@),
                self@ == slots_of(self.table.ids@, self.table.entries@),
                has_id(self@, id),
                i <= self.table.ids@.len(),
                forall|j: int| 0 <= j < i ==> self.table.ids@[j] != id,
            decreases self.table.ids@.len() - i,
        {
            if self.table.ids[i] == id {
                proof {
                    assert(self@[i as int].0 == id);
                    lemma_position_unique(self@, i as int);
                }
                return Some(i);
            }
            i += 1;
        }
        proof {
            let k = position(self@, id);
            assert(0 <= k < self@.len() && self@[k].0 == id);
            assert(self.table.ids@[k] == id);
        }
        None
    }

    /// Whether the registry holds `id`.
    pub fn contains_key(&self, id: u128) -> (b: bool)
        ensures
            b == has_id(self@, id),
    {
        broadcast use group_hash_axioms;

        proof {
            use_type_invariant(self);
            lemma_slots_of(self.table.ids@, self.table.entries@);
        }
        self.table.entries.contains_key(&id)
    }

    /// The id in slot `i`.
    pub fn id_at(&self, i: usize) -> (id: u128)
        requires
            i < self@.len(),
        ensures
            id == self@[i as int].0,
    {
        self.table.ids[i]
    }

    /// The entry in slot `i`.
    pub fn entry_at(&self, i: usize) -> (entry: &V)
        requires
            i < self@.len(),
        ensures
            *entry == self@[i as int].1,
    {
        broadcast use group_hash_axioms;

        proof {
            use_type_invariant(self);
        }
        let found = self.table.entries.get(&self.table.ids[i]);
        found.unwrap()
    }

    /// The entry stored under `id`.
    pub fn get(&self, id: u128) -> (r: Option<&V>)
        ensures
            r is Some <==> has_id(self@, id),
            r is Some ==> *r->0 == lookup(self@, id),
    {
        broadcast use group_hash_axioms;

        proof {
            use_type_invariant(self);
            lemma_slots_of(self.table.ids@, self.table.entries@);
        }
        self.table.entries.get(&id)
    }

    /// Takes the table out, leaving an empty one in its place.
    fn take_table(&mut self) -> (table: Table<V>)
        ensures
            table == old(self).table,
            listed(table.ids@, table.entries@),
            old(self)@ == slots_of(table.ids@, table.entries@),
            distinct_ids(old(self)@),
            forall|id: u128| has_id(old(self)@, id) <==> table.entries@.contains_key(id),
            forall|id: u128|
                table.entries@.contains_key(id) ==> lookup(old(self)@, id) == table.entries@[id],
    {
        proof {
            use_type_invariant(&*self);
            lemma_slots_of(self.table.ids@, self.table.entries@);
        }
        let mut table = Table { ids: Vec::new(), entries: HashMap::new() };
        core::mem::swap(&mut self.table, &mut table);
        table
    }

    /// Stores `value` under `id` and hands back the entry it replaced.
    pub fn insert(&mut self, id: u128, value: V) -> (previous: Option<V>)
        ensures
            final(self)@ == put(old(self)@, id, value),
            distinct_ids(old(self)@),
            distinct_ids(final(self)@),
            has_id(final(self)@, id),
            lookup(final(self)@, id) == value,
            previous is Some <==> has_id(old(self)@, id),
            previous is Some ==> previous->0 == lookup(old(self)@, id),
    {
        broadcast use group_hash_axioms;

        let mut table = self.take_table();
        let ghost ids = table.ids@;
        let ghost entries = table.entries@;
        let previous = table.entries.insert(id, value);
        if previous.is_none() {
            table.ids.push(id);
        }
        proof {
            lemma_put(old(self)@, id, value);
            let s = old(self)@;
            let t = slots_of(table.ids@, table.entries@);
            if has_id(s, id) {
                let k = position(s, id);
                assert(0 <= k < s.len() && s[k].0 == id);
                assert(ids[k] == id);
                assert forall|i: int| 0 <= i < t.len() implies t[i] == s.update(k, (id, value))[i] by {
                    if i != k {
                        assert(ids[i] != ids[k]);
                    }
                }
                assert(t =~= put(s, id, value));
            } else {
                assert forall|i: int| 0 <= i < ids.len() implies ids[i] != id by {
                    assert(entries.contains_key(ids[i]));
                }
                assert(t =~= put(s, id, value));
            }
            assert forall|k: u128| #[trigger] table.entries@.contains_key(k) implies exists|i: int|
                0 <= i < table.ids@.len() && #[trigger] table.ids@[i] == k by {
                if k == id {
                    if has_id(s, id) {
                        assert(table.ids@[position(s, id)] == id);
                    } else {
                        assert(table.ids@[ids.len() as int] == id);
                    }
                } else {
                    assert(entries.contains_key(k));
                    let i = choose|i: int| 0 <= i < ids.len() && #[trigger] ids[i] == k;
                    assert(table.ids@[i] == k);
                }
            }
        }
        self.table = table;
        previous
    }

    /// Puts `value` in place of the entry in slot `i`, under the same id, and
    /// hands back the entry it replaced.
    pub fn replace_at(&mut self, i: usize, value: V) -> (previous: V)
        requires
            i < old(self)@.len(),
        ensures
            previous == old(self)@[i as int].1,
            final(self)@ == old(self)@.update(i as int, (old(self)@[i as int].0, value)),
            final(self)@ == put(old(self)@, old(self)@[i as int].0, value),
            distinct_ids(final(self)@),
    {
        self.ids_are_distinct();
        proof {
            lemma_position_unique(self@, i as int);
        }
        let id = self.id_at(i);
        let previous = self.insert(id, value);
        previous.unwrap()
    }

    /// Puts a new id, with its entry, into slot `i`; the slots from `i` on move
    /// up by one. Where the slot of that id was taken out of slot `i` just
    /// before, this puts the new entry in the old one's place.
    pub fn insert_at(&mut self, i: usize, id: u128, value: V)
        requires
            i <= old(self)@.len(),
            !has_id(old(self)@, id),
        ensures
            final(self)@ == old(self)@.insert(i as int, (id, value)),
            distinct_ids(final(self)@),
            has_id(final(self)@, id),
            lookup(final(self)@, id) == value,
            forall|before: Seq<(u128, V)>|
                distinct_ids(before) && i < before.len() && before[i as int].0 == id && old(self)@
                    == #[trigger] before.remove(i as int) ==> final(self)@ == put(
                    before,
                    id,
                    value,
                ),
    {
        broadcast use group_hash_axioms;

        let mut table = self.take_table();
        let ghost ids = table.ids@;
        let ghost entries = table.entries@;
        table.entries.insert(id, value);
        table.ids.insert(i, id);
        proof {
            let s = old(self)@;
            let t = slots_of(table.ids@, table.entries@);
            assert forall|a: int| 0 <= a < ids.len() implies ids[a] != id by {
                assert(entries.contains_key(ids[a]));
            }
            assert(t =~= s.insert(i as int, (id, value)));
            assert forall|a: int, b: int| 0 <= a < b < table.ids@.len() implies table.ids@[a]
                != table.ids@[b] by {
                let a0 = if a < i { a } else { a - 1 };
                let b0 = if b < i { b } else { b - 1 };
                if a == i {
                    assert(ids[b0] != id);
                } else if b == i {
                    assert(ids[a0] != id);
                } else {
                    assert(ids[a0] != ids[b0]);
                }
            }
            assert forall|a: int| 0 <= a < table.ids@.len() implies table.entries@.contains_key(
                #[trigger] table.ids@[a],
            ) by {
                if a != i {
                    let a0 = if a < i { a } else { a - 1 };
                    assert(entries.contains_key(ids[a0]));
                }
            }
            assert forall|k: u128| #[trigger] table.entries@.contains_key(k) implies exists|a: int|
                0 <= a < table.ids@.len() && #[trigger] table.ids@[a] == k by {
                if k == id {
                    assert(table.ids@[i as int] == id);
                } else {
                    assert(entries.contains_key(k));
                    let a0 = choose|a: int| 0 <= a < ids.len() && #[trigger] ids[a] == k;
                    let a = if a0 < i { a0 } else { a0 + 1 };
                    assert(table.ids@[a] == k);
                }
            }
            lemma_slots_of(table.ids@, table.entries@);
            assert(t[i as int].0 == id);
            assert forall|before: Seq<(u128, V)>|
                distinct_ids(before) && i < before.len() && before[i as int].0 == id && s
                    == #[trigger] before.remove(i as int) implies t == put(before, id, value) by {
                lemma_position_unique(before, i as int);
                assert(t =~= before.update(i as int, (id, value)));
            }
        }
        self.table = table;
    }

    /// Takes the slot at index `i` out of the registry.
    pub fn remove_at(&mut self, i: usize) -> (slot: (u128, V))
        requires
            i < old(self)@.len(),
        ensures
            slot == old(self)@[i as int],
            final(self)@ == old(self)@.remove(i as int),
            final(self)@ == without(old(self)@, slot.0),
            !has_id(final(self)@, slot.0),
            distinct_ids(old(self)@),
            distinct_ids(final(self)@),
    {
        broadcast use group_hash_axioms;

        let mut table = self.take_table();
        let ghost ids = table.ids@;
        let ghost entries = table.entries@;
        let id = table.ids.remove(i);
        let removed = table.entries.remove(&id);
        proof {
            let s = old(self)@;
            let t = slots_of(table.ids@, table.entries@);
            lemma_position_unique(s, i as int);
            lemma_without(s, id);
            assert forall|a: int| 0 <= a < t.len() implies t[a] == s.remove(i as int)[a] by {
                let a0 = if a < i { a } else { a + 1 };
                assert(table.ids@[a] == ids[a0]);
                if a0 < i {
                    assert(ids[a0] != ids[i as int]);
                } else {
                    assert(ids[i as int] != ids[a0]);
                }
            }
            assert(t =~= s.remove(i as int));
            assert forall|a: int, b: int| 0 <= a < b < table.ids@.len() implies table.ids@[a]
                != table.ids@[b] by {
                let a0 = if a < i { a } else { a + 1 };
                let b0 = if b < i { b } else { b + 1 };
                assert(ids[a0] != ids[b0]);
            }
            assert forall|a: int| 0 <= a < table.ids@.len() implies table.entries@.contains_key(
                #[trigger] table.ids@[a],
            ) by {
                let a0 = if a < i { a } else { a + 1 };
                assert(entries.contains_key(ids[a0]));
                if a0 < i {
                    assert(ids[a0] != ids[i as int]);
                } else {
                    assert(ids[i as int] != ids[a0]);
                }
            }
            assert forall|k: u128| #[trigger] table.entries@.contains_key(k) implies exists|a: int|
                0 <= a < table.ids@.len() && #[trigger] table.ids@[a] == k by {
                assert(entries.contains_key(k) && k != id);
                let a0 = choose|a: int| 0 <= a < ids.len() && #[trigger] ids[a] == k;
                let a = if a0 < i { a0 } else { a0 - 1 };
                assert(table.ids@[a] == k);
            }
        }
        self.table = table;
        (id, removed.unwrap())
    }

    /// Takes the entry of `id` out of the registry, if it holds one.
    pub fn remove(&mut self, id: u128) -> (previous: Option<V>)
        ensures
            final(self)@ == without(old(self)@, id),
            distinct_ids(old(self)@),
            distinct_ids(final(self)@),
            !has_id(final(self)@, id),
            previous is Some <==> has_id(old(self)@, id),
            previous is Some ==> previous->0 == lookup(old(self)@, id),
    {
        match self.find(id) {
            Some(i) => {
                proof {
                    lemma_position_unique(self@, i as int);
                }
                let slot = self.remove_at(i);
                Some(slot.1)
            },
            None => {
                proof {
                    lemma_without(self@, id);
                }
                None
            },
        }
    }
}

} // verus!
