//! A small map that keeps its entries in the order in which their keys were
//! first inserted.

use vstd::prelude::*;
use crate::key::{Duplicate, Key};

verus! {

/// No two entries have the same key.
pub open spec fn distinct_keys<K: View, V>(entries: Seq<(K, V)>) -> bool {
    forall|i: int, j: int|
        0 <= i < j < entries.len() ==> (#[trigger] entries[i]).0@ != (#[trigger] entries[j]).0@
}

/// Some entry has the key `key`.
pub open spec fn has_key<K: View, V>(entries: Seq<(K, V)>, key: K::V) -> bool {
    exists|i: int| 0 <= i < entries.len() && (#[trigger] entries[i]).0@ == key
}

/// The position of an entry with the key `key`.
pub open spec fn key_index<K: View, V>(entries: Seq<(K, V)>, key: K::V) -> int {
    choose|i: int| 0 <= i < entries.len() && (#[trigger] entries[i]).0@ == key
}

/// The map that a sequence of entries denotes: from what each key denotes to
/// what the value beside it denotes.
pub open spec fn entries_map<K: View, V: View>(entries: Seq<(K, V)>) -> Map<K::V, V::V> {
    Map::new(
        |key: K::V| has_key(entries, key),
        |key: K::V| entries[key_index(entries, key)].1@,
    )
}

/// The entries after `key` has been given the value `value`: the entry of
/// `key` is replaced where it stands, and a new key is added at the end.
pub open spec fn entries_inserted<K: View, V>(entries: Seq<(K, V)>, key: K, value: V) -> Seq<
    (K, V),
> {
    if has_key(entries, key@) {
        entries.update(key_index(entries, key@), (key, value))
    } else {
        entries.push((key, value))
    }
}

/// The entries without that of `key`; the others keep their order.
pub open spec fn entries_removed<K: View, V>(entries: Seq<(K, V)>, key: K::V) -> Seq<(K, V)> {
    if has_key(entries, key) {
        entries.remove(key_index(entries, key))
    } else {
        entries
    }
}

/// With distinct keys, the map gives each entry's key the value beside it.
pub proof fn lemma_entry_in_map<K: View, V: View>(entries: Seq<(K, V)>, i: int)
    requires
        distinct_keys(entries),
        0 <= i < entries.len(),
    ensures
        has_key(entries, entries[i].0@),
        key_index(entries, entries[i].0@) == i,
        entries_map(entries).contains_key(entries[i].0@),
        entries_map(entries)[entries[i].0@] == entries[i].1@,
{
    let key = entries[i].0@;
    assert(has_key(entries, key));
    let j = key_index(entries, key);
    assert(0 <= j < entries.len() && entries[j].0@ == key);
    if j < i {
        assert(entries[j].0@ != entries[i].0@);
    }
    if i < j {
        assert(entries[i].0@ != entries[j].0@);
    }
}

/// With distinct keys, the map has as many keys as there are entries.
pub proof fn lemma_entries_map_len<K: View, V: View>(entries: Seq<(K, V)>)
    requires
        distinct_keys(entries),
    ensures
        entries_map(entries).dom().finite(),
        entries_map(entries).len() == entries.len(),
{
    let keys = Seq::new(entries.len(), |i: int| entries[i].0@);
    assert(keys.no_duplicates()) by {
        assert forall|i: int, j: int|
            0 <= i < keys.len() && 0 <= j < keys.len() && i != j implies keys[i] != keys[j] by {
            if i < j {
                assert(entries[i].0@ != entries[j].0@);
            } else {
                assert(entries[j].0@ != entries[i].0@);
            }
        }
    }
    assert(entries_map(entries).dom() =~= keys.to_set()) by {
        let dom = entries_map(entries).dom();
        assert forall|key: K::V| dom.contains(key) implies keys.to_set().contains(key) by {
            let i = key_index(entries, key);
            assert(keys[i] == key);
        }
        assert forall|key: K::V| keys.to_set().contains(key) implies dom.contains(key) by {
            let i = choose|i: int| 0 <= i < keys.len() && keys[i] == key;
            assert(entries[i].0@ == key);
        }
    }
    vstd::seq_lib::seq_to_set_is_finite(keys);
    keys.unique_seq_to_set();
}

/// Adding an entry with a new key keeps the keys distinct and inserts into
/// the map.
pub proof fn lemma_entries_push<K: View, V: View>(entries: Seq<(K, V)>, entry: (K, V))
    requires
        distinct_keys(entries),
        !has_key(entries, entry.0@),
    ensures
        distinct_keys(entries.push(entry)),
        entries_map(entries.push(entry)) == entries_map(entries).insert(entry.0@, entry.1@),
{
    let after = entries.push(entry);
    assert(distinct_keys(after)) by {
        assert forall|i: int, j: int| 0 <= i < j < after.len() implies (#[trigger] after[i]).0@ != (
        #[trigger] after[j]).0@ by {
            if j < entries.len() {
                assert(entries[i].0@ != entries[j].0@);
            } else {
                assert(entries[i].0@ != entry.0@);
            }
        }
    }
    assert forall|key: K::V|
        has_key(after, key) <==> (key == entry.0@ || has_key(entries, key)) by {
        if has_key(after, key) {
            let i = key_index(after, key);
            if i < entries.len() {
                assert(entries[i].0@ == key);
            }
        }
        if has_key(entries, key) {
            let i = key_index(entries, key);
            assert(after[i].0@ == key);
        }
        if key == entry.0@ {
            assert(after[entries.len() as int].0@ == key);
        }
    }
    assert forall|key: K::V| has_key(after, key) implies #[trigger] entries_map(after)[key]
        == entries_map(entries).insert(entry.0@, entry.1@)[key] by {
        let i = key_index(after, key);
        lemma_entry_in_map(after, i);
        if i < entries.len() {
            assert(entries[i].0@ == key);
            lemma_entry_in_map(entries, i);
        }
    }
    assert(entries_map(after) =~= entries_map(entries).insert(entry.0@, entry.1@));
}

/// Replacing the value of an entry keeps the keys distinct and inserts into
/// the map.
pub proof fn lemma_entries_update<K: View, V: View>(entries: Seq<(K, V)>, i: int, entry: (K, V))
    requires
        distinct_keys(entries),
        0 <= i < entries.len(),
        entries[i].0@ == entry.0@,
    ensures
        distinct_keys(entries.update(i, entry)),
        entries_map(entries.update(i, entry)) == entries_map(entries).insert(entry.0@, entry.1@),
{
    let after = entries.update(i, entry);
    assert(distinct_keys(after)) by {
        assert forall|a: int, b: int| 0 <= a < b < after.len() implies (#[trigger] after[a]).0@ != (
        #[trigger] after[b]).0@ by {
            assert(entries[a].0@ != entries[b].0@);
        }
    }
    assert forall|key: K::V| has_key(after, key) <==> has_key(entries, key) by {
        if has_key(after, key) {
            let j = key_index(after, key);
            assert(entries[j].0@ == key);
        }
        if has_key(entries, key) {
            let j = key_index(entries, key);
            assert(after[j].0@ == key);
        }
    }
    lemma_entry_in_map(entries, i);
    assert forall|key: K::V| has_key(after, key) implies #[trigger] entries_map(after)[key]
        == entries_map(entries).insert(entry.0@, entry.1@)[key] by {
        let j = key_index(after, key);
        lemma_entry_in_map(after, j);
        if j != i {
            assert(entries[j].0@ == key);
            lemma_entry_in_map(entries, j);
        }
    }
    assert(entries_map(after) =~= entries_map(entries).insert(entry.0@, entry.1@));
}

/// Taking an entry out keeps the keys distinct and removes its key from the
/// map.
pub proof fn lemma_entries_remove<K: View, V: View>(entries: Seq<(K, V)>, i: int)
    requires
        distinct_keys(entries),
        0 <= i < entries.len(),
    ensures
        distinct_keys(entries.remove(i)),
        entries_map(entries.remove(i)) == entries_map(entries).remove(entries[i].0@),
{
    let after = entries.remove(i);
    let gone = entries[i].0@;
    assert forall|a: int| 0 <= a < after.len() implies #[trigger] after[a] == entries[if a < i {
        a
    } else {
        a + 1
    }] by {}
    assert(distinct_keys(after)) by {
        assert forall|a: int, b: int| 0 <= a < b < after.len() implies (#[trigger] after[a]).0@ != (
        #[trigger] after[b]).0@ by {
            let a0 = if a < i { a } else { a + 1 };
            let b0 = if b < i { b } else { b + 1 };
            assert(entries[a0].0@ != entries[b0].0@);
        }
    }
    assert forall|key: K::V| has_key(after, key) <==> (key != gone && has_key(entries, key)) by {
        if has_key(after, key) {
            let a = key_index(after, key);
            let a0 = if a < i { a } else { a + 1 };
            assert(entries[a0].0@ == key);
            if a0 < i {
                assert(entries[a0].0@ != entries[i].0@);
            } else {
                assert(entries[i].0@ != entries[a0].0@);
            }
        }
        if key != gone && has_key(entries, key) {
            let j = key_index(entries, key);
            let a = if j < i { j } else { j - 1 };
            assert(after[a].0@ == key);
        }
    }
    assert forall|key: K::V| has_key(after, key) implies #[trigger] entries_map(after)[key]
        == entries_map(entries).remove(gone)[key] by {
        let a = key_index(after, key);
        lemma_entry_in_map(after, a);
        let a0 = if a < i { a } else { a + 1 };
        assert(entries[a0].0@ == key);
        lemma_entry_in_map(entries, a0);
    }
    assert(entries_map(after) =~= entries_map(entries).remove(gone));
}

/// Entries that denote the same, position by position, have distinct keys
/// together and denote the same map.
pub proof fn lemma_entries_alike<K: View, V: View>(a: Seq<(K, V)>, b: Seq<(K, V)>)
    requires
        distinct_keys(a),
        a.len() == b.len(),
        forall|i: int| 0 <= i < a.len() ==> (#[trigger] b[i]).0@ == a[i].0@ && b[i].1@ == a[i].1@,
    ensures
        distinct_keys(b),
        entries_map(b) == entries_map(a),
{
    assert(distinct_keys(b)) by {
        assert forall|i: int, j: int| 0 <= i < j < b.len() implies (#[trigger] b[i]).0@ != (
        #[trigger] b[j]).0@ by {
            assert(a[i].0@ != a[j].0@);
        }
    }
    assert forall|key: K::V| has_key(b, key) <==> has_key(a, key) by {
        if has_key(b, key) {
            let i = key_index(b, key);
            assert(a[i].0@ == key);
        }
        if has_key(a, key) {
            let i = key_index(a, key);
            assert(b[i].0@ == key);
        }
    }
    assert forall|key: K::V| has_key(b, key) implies #[trigger] entries_map(b)[key]
        == entries_map(a)[key] by {
        let i = key_index(b, key);
        lemma_entry_in_map(b, i);
        lemma_entry_in_map(a, i);
    }
    assert(entries_map(b) =~= entries_map(a));
}

/// A map from keys to values. It denotes a mathematical map between the
/// views of both; the entries themselves are kept in the order in which
/// their keys were first inserted, and no key occurs twice.
#[derive(Debug)]
pub struct VecMap<K: Key, V: View> {
    entries: Vec<(K, V)>,
}

impl<K: Key, V: View> View for VecMap<K, V> {
    type V = Map<K::V, V::V>;

    open spec fn view(&self) -> Map<K::V, V::V> {
        entries_map(self.entries())
    }
}

impl<K: Key, V: View> VecMap<K, V> {
    /// The entries of the map, in the order in which their keys were first
    /// inserted.
    pub closed spec fn entries(&self) -> Seq<(K, V)> {
        self.entries@
    }

    /// The value that stands beside `key` in the entries.
    pub open spec fn value_of(&self, key: K::V) -> V {
        self.entries()[key_index(self.entries(), key)].1
    }

    #[verifier::type_invariant]
    spec fn well_formed(&self) -> bool {
        distinct_keys(self.entries@)
    }

    /// The empty map.
    pub fn new() -> (r: Self)
        ensures
            r.entries() == Seq::<(K, V)>::empty(),
            r@ == Map::<K::V, V::V>::empty(),
    {
        let r = VecMap { entries: Vec::new() };
        assert(r@ =~= Map::<K::V, V::V>::empty());
        r
    }

    /// The number of entries, which is the number of keys.
    pub fn len(&self) -> (r: usize)
        ensures
            r == self.entries().len(),
            r == self@.len(),
            self@.dom().finite(),
            distinct_keys(self.entries()),
    {
        proof {
            use_type_invariant(self);
            lemma_entries_map_len(self.entries@);
        }
        self.entries.len()
    }

    /// The entry at position `index`, if there is one.
    pub fn get_index(&self, index: usize) -> (r: Option<(&K, &V)>)
        ensures
            r is Some <==> index < self.entries().len(),
            r is Some ==> {
                let (key, value) = r.unwrap();
                &&& *key == self.entries()[index as int].0
                &&& *value == self.entries()[index as int].1
                &&& self@.contains_key(key@)
                &&& self@[key@] == value@
            },
    {
        proof {
            use_type_invariant(self);
        }
        if index < self.entries.len() {
            proof {
                lemma_entry_in_map(self.entries@, index as int);
            }
            let entry = &self.entries[index];
            Some((&entry.0, &entry.1))
        } else {
            None
        }
    }

    /// The position of the entry of `key`, if it has one.
    fn position(&self, key: &K) -> (r: Option<usize>)
        ensures
            r is Some <==> has_key(self.entries@, key@),
            r is Some ==> r->0 < self.entries@.len() && self.entries@[r->0 as int].0@ == key@
                && r->0 == key_index(self.entries@, key@),
    {
        proof {
            use_type_invariant(self);
        }
        let mut i: usize = 0;
        while i < self.entries.len()
            invariant
                i <= self.entries@.len(),
                distinct_keys(self.entries@),
                forall|j: int| 0 <= j < i ==> (#[trigger] self.entries@[j]).0@ != key@,
            decreases self.entries@.len() - i,
        {
            if self.entries[i].0.same(key) {
                proof {
                    lemma_entry_in_map(self.entries@, i as int);
                }
                return Some(i);
            }
            i += 1;
        }
        None
    }

    /// Whether the map has an entry for `key`.
    pub fn contains_key(&self, key: &K) -> (r: bool)
        ensures
            r == self@.contains_key(key@),
    {
        self.position(key).is_some()
    }

    /// The value of `key`, if it has one.
    pub fn get(&self, key: &K) -> (r: Option<&V>)
        ensures
            r is Some <==> self@.contains_key(key@),
            r is Some ==> *r->0 == self.value_of(key@) && r->0@ == self@[key@],
    {
        match self.position(key) {
            Some(i) => Some(&self.entries[i].1),
            None => None,
        }
    }

    /// Gives `key` the value `value`, whether or not it had one.
    pub fn insert(&mut self, key: K, value: V)
        ensures
            final(self)@ == old(self)@.insert(key@, value@),
            final(self).entries() == entries_inserted(old(self).entries(), key, value),
    {
        proof {
            use_type_invariant(&*self);
        }
        let found = self.position(&key);
        let mut entries: Vec<(K, V)> = Vec::new();
        std::mem::swap(&mut entries, &mut self.entries);
        match found {
            Some(i) => {
                proof {
                    lemma_entries_update(entries@, i as int, (key, value));
                }
                entries.set(i, (key, value));
            },
            None => {
                proof {
                    lemma_entries_push(entries@, (key, value));
                }
                entries.push((key, value));
            },
        }
        self.entries = entries;
    }

    /// Takes the entry of `key` out of the map, if it has one, and returns
    /// it.
    pub fn remove(&mut self, key: &K) -> (r: Option<(K, V)>)
        ensures
            final(self)@ == old(self)@.remove(key@),
            final(self).entries() == entries_removed(old(self).entries(), key@),
            r is Some <==> old(self)@.contains_key(key@),
            r is Some ==> {
                let (removed_key, removed_value) = r.unwrap();
                removed_key@ == key@ && removed_value@ == old(self)@[key@]
            },
    {
        proof {
            use_type_invariant(&*self);
        }
        match self.position(key) {
            Some(i) => {
                let mut entries: Vec<(K, V)> = Vec::new();
                std::mem::swap(&mut entries, &mut self.entries);
                proof {
                    lemma_entries_remove(entries@, i as int);
                    lemma_entry_in_map(entries@, i as int);
                }
                let entry = entries.remove(i);
                self.entries = entries;
                Some(entry)
            },
            None => {
                assert(self@ =~= old(self)@.remove(key@));
                None
            },
        }
    }
}

impl<K: Key, V: Duplicate> Duplicate for VecMap<K, V> {
    fn duplicate(&self) -> (r: Self)
        ensures
            r.entries().len() == self.entries().len(),
            forall|i: int|
                0 <= i < self.entries().len() ==> (#[trigger] r.entries()[i]).0@
                    == self.entries()[i].0@ && r.entries()[i].1@ == self.entries()[i].1@,
    {
        proof {
            use_type_invariant(self);
        }
        let mut entries: Vec<(K, V)> = Vec::new();
        let mut i: usize = 0;
        while i < self.entries.len()
            invariant
                i <= self.entries@.len(),
                entries@.len() == i,
                forall|j: int|
                    0 <= j < i ==> (#[trigger] entries@[j]).0@ == self.entries@[j].0@
                        && entries@[j].1@ == self.entries@[j].1@,
            decreases self.entries@.len() - i,
        {
            let key = self.entries[i].0.duplicate();
            let value = self.entries[i].1.duplicate();
            entries.push((key, value));
            i += 1;
        }
        proof {
            lemma_entries_alike(self.entries@, entries@);
        }
        VecMap { entries }
    }
}

impl<K: Key, V: Duplicate> Clone for VecMap<K, V> {
    fn clone(&self) -> (r: Self)
        ensures
            r@ == self@,
            r.entries().len() == self.entries().len(),
            forall|i: int|
                0 <= i < self.entries().len() ==> (#[trigger] r.entries()[i]).0@
                    == self.entries()[i].0@ && r.entries()[i].1@ == self.entries()[i].1@,
    {
        self.duplicate()
    }
}

impl<K: Key, V: View> Default for VecMap<K, V> {
    fn default() -> (r: Self)
        ensures
            r.entries() == Seq::<(K, V)>::empty(),
            r@ == Map::<K::V, V::V>::empty(),
    {
        VecMap::new()
    }
}

} // verus!
