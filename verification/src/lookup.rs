//! A small map keyed by text.

use vstd::prelude::*;

verus! {

/// A finite map from text to `V` that remembers the order in which its keys
/// were first inserted.
///
/// The map is viewed as a `Map<Seq<char>, V>`. Its entries can also be walked
/// by position: `keys()` and `values()` list them in insertion order, no key
/// occurs twice, and `values()[i]` is what the map holds under `keys()[i]`.
#[derive(Debug)]
pub struct StringMap<V> {
    entries: Vec<(String, V)>,
}

impl<V> StringMap<V> {
    #[verifier::type_invariant]
    spec fn keys_are_distinct(self) -> bool {
        forall|i: int, j: int|
            0 <= i < j < self.entries@.len() ==> self.entries@[i].0@ != self.entries@[j].0@
    }

    /// The keys, in the order in which they were first inserted.
    pub closed spec fn keys(self) -> Seq<Seq<char>> {
        Seq::new(self.entries@.len(), |i: int| self.entries@[i].0@)
    }

    /// The value under each key, in the order of `keys()`.
    pub closed spec fn values(self) -> Seq<V> {
        Seq::new(self.entries@.len(), |i: int| self.entries@[i].1)
    }

    /// What every map that executable code can hold satisfies.
    pub open spec fn wf(self) -> bool {
        &&& self.keys().len() == self.values().len()
        &&& self.keys().no_duplicates()
    }

    /// In a well-formed map, the entry at position `i` is the map's entry
    /// for the key at that position.
    pub proof fn lemma_entry_at(self, i: int)
        requires
            self.wf(),
            0 <= i < self.keys().len(),
        ensures
            self@.contains_key(self.keys()[i]),
            self@[self.keys()[i]] == self.values()[i],
    {
        let key = self.keys()[i];
        assert(self.keys().contains(key));
        let found = self.keys().index_of(key);
        assert(found == i);
    }

    /// Every key of the map stands at some position.
    pub proof fn lemma_key_has_position(self, key: Seq<char>)
        requires
            self@.contains_key(key),
        ensures
            0 <= self.keys().index_of(key) < self.keys().len(),
            self.keys()[self.keys().index_of(key)] == key,
    {
    }

    pub fn new() -> (map: StringMap<V>)
        ensures
            map@ == Map::<Seq<char>, V>::empty(),
            map.keys().len() == 0,
            map.wf(),
    {
        let map = StringMap { entries: Vec::new() };
        assert(map@ =~= Map::<Seq<char>, V>::empty());
        map
    }

    /// The number of entries.
    pub fn len(&self) -> (n: usize)
        ensures
            n == self.keys().len(),
            n == self@.len(),
            self.wf(),
    {
        proof {
            use_type_invariant(self);
            self.keys().unique_seq_to_set();
            assert(self@.dom() =~= self.keys().to_set());
        }
        self.entries.len()
    }

    /// The key at position `i`.
    pub fn key_at(&self, i: usize) -> (key: &String)
        requires
            i < self.keys().len(),
        ensures
            key@ == self.keys()[i as int],
    {
        &self.entries[i].0
    }

    /// The value at position `i`.
    pub fn value_at(&self, i: usize) -> (value: &V)
        requires
            i < self.keys().len(),
        ensures
            self.wf(),
            *value == self.values()[i as int],
            *value == self@[self.keys()[i as int]],
    {
        proof {
            use_type_invariant(self);
            self.lemma_entry_at(i as int);
        }
        &self.entries[i].1
    }

    /// The position at which `key` stands, if the map has it.
    fn position(&self, key: &String) -> (found: Option<usize>)
        ensures
            match found {
                Some(i) => i < self.entries@.len() && self.entries@[i as int].0@ == key@,
                None => forall|j: int| 0 <= j < self.entries@.len() ==> self.entries@[j].0@ != key@,
            },
            found is Some <==> self.keys().contains(key@),
    {
        let n: usize = self.entries.len();
        let mut i: usize = 0;
        while i < n
            invariant
                n == self.entries@.len(),
                i <= n,
                forall|j: int| 0 <= j < i ==> self.entries@[j].0@ != key@,
            decreases n - i,
        {
            if self.entries[i].0 == *key {
                assert(self.keys()[i as int] == key@);
                return Some(i);
            }
            i += 1;
        }
        None
    }

    /// The value under `key`, if the map has one.
    pub fn get(&self, key: &String) -> (value: Option<&V>)
        ensures
            match value {
                Some(v) => self@.contains_key(key@) && *v == self@[key@],
                None => !self@.contains_key(key@),
            },
    {
        match self.position(key) {
            Some(i) => {
                proof {
                    use_type_invariant(self);
                    self.lemma_entry_at(i as int);
                }
                Some(&self.entries[i].1)
            },
            None => None,
        }
    }

    /// Whether the map has a value under `key`.
    pub fn contains_key(&self, key: &String) -> (r: bool)
        ensures
            r == self@.contains_key(key@),
    {
        self.position(key).is_some()
    }

    /// Puts `value` under `key`. A key that is new goes to the end; one that
    /// the map already has keeps its position and gets the new value.
    pub fn insert(&mut self, key: String, value: V)
        ensures
            final(self)@ == old(self)@.insert(key@, value),
            old(self)@.contains_key(key@) ==> final(self).keys() == old(self).keys(),
            !old(self)@.contains_key(key@) ==> final(self).keys() == old(self).keys().push(key@),
    {
        let found = self.position(&key);
        let mut taken = StringMap { entries: Vec::new() };
        core::mem::swap(self, &mut taken);
        proof {
            use_type_invariant(&taken);
        }
        let ghost before = taken;
        let mut entries = taken.entries;
        match found {
            Some(i) => {
                entries.set(i, (key, value));
            },
            None => {
                entries.push((key, value));
            },
        }
        let after = StringMap { entries };
        proof {
            let expected = before@.insert(key@, value);
            assert forall|k: Seq<char>| #[trigger]
                after@.contains_key(k) <==> expected.contains_key(k) by {
                if after.keys().contains(k) {
                    let j = after.keys().index_of(k);
                    if k != key@ {
                        assert(before.keys()[j] == k);
                    }
                }
                if before.keys().contains(k) {
                    let j = before.keys().index_of(k);
                    assert(after.keys()[j] == k);
                }
                if k == key@ {
                    match found {
                        Some(i) => {
                            assert(after.keys()[i as int] == k);
                        },
                        None => {
                            assert(after.keys()[after.keys().len() - 1] == k);
                        },
                    }
                }
            }
            assert forall|k: Seq<char>| #[trigger]
                after@.contains_key(k) implies after@[k] == expected[k] by {
                let j = after.keys().index_of(k);
                after.lemma_entry_at(j);
                if k != key@ {
                    assert(before.keys()[j] == k);
                    before.lemma_entry_at(j);
                }
            }
            assert(after@ =~= expected);
            if found is Some {
                assert(after.keys() =~= before.keys());
            } else {
                assert(after.keys() =~= before.keys().push(key@));
            }
        }
        *self = after;
    }
}

impl<Value> View for StringMap<Value> {
    type V = Map<Seq<char>, Value>;

    /// The map itself: its domain is the set of keys, and a key maps to the
    /// value at the position where the key stands.
    open spec fn view(&self) -> Map<Seq<char>, Value> {
        Map::new(
            |key: Seq<char>| self.keys().contains(key),
            |key: Seq<char>| self.values()[self.keys().index_of(key)],
        )
    }
}

impl<V: Clone> Clone for StringMap<V> {
    fn clone(&self) -> (copy: StringMap<V>)
        ensures
            copy.keys() == self.keys(),
            copy.values().len() == self.values().len(),
            forall|i: int|
                0 <= i < self.values().len() ==> cloned(
                    self.values()[i],
                    #[trigger] copy.values()[i],
                ),
    {
        let n: usize = self.entries.len();
        let mut entries: Vec<(String, V)> = Vec::new();
        let mut i: usize = 0;
        proof {
            use_type_invariant(self);
        }
        while i < n
            invariant
                n == self.entries@.len(),
                i <= n,
                entries@.len() == i,
                forall|j: int| 0 <= j < i ==> entries@[j].0@ == self.entries@[j].0@,
                forall|j: int| 0 <= j < i ==> cloned(self.entries@[j].1, #[trigger] entries@[j].1),
            decreases n - i,
        {
            let key = self.entries[i].0.clone();
            let value = self.entries[i].1.clone();
            entries.push((key, value));
            i += 1;
        }
        let copy = StringMap { entries };
        assert(copy.keys() =~= self.keys());
        copy
    }
}

} // verus!
