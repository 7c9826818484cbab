//! A map from string keys to values that remembers the order in which its
//! keys first arrived. A decoded JSON object is held in one, so that "the
//! first entry" and "every entry in turn" are well defined.
//!
//! The model of a map is the sequence of its keys and the sequence of its
//! values, position by position; its view is the mathematical map that the
//! two sequences spell out.

use vstd::prelude::*;
use crate::text::str_eq;

verus! {

/// A map from strings to `V` in which no key occurs twice and every key
/// keeps the position at which it first arrived.
#[derive(Debug, PartialEq, Eq)]
pub struct OrderedMap<V> {
    entries: Vec<(String, V)>,
}

impl<V> View for OrderedMap<V> {
    type V = Map<Seq<char>, V>;

    /// The map from each key to the value at the key's position.
    open spec fn view(&self) -> Map<Seq<char>, V> {
        Map::new(
            |key: Seq<char>| self.keys().contains(key),
            |key: Seq<char>| self.values()[self.keys().index_of(key)],
        )
    }
}

impl<V> OrderedMap<V> {
    /// The keys, in order of first insertion.
    pub closed spec fn keys(self) -> Seq<Seq<char>> {
        self.entries@.map_values(|e: (String, V)| e.0@)
    }

    /// The values, each at the position of its key.
    pub closed spec fn values(self) -> Seq<V> {
        self.entries@.map_values(|e: (String, V)| e.1)
    }

    /// No key occurs twice. Every value of this type that executable code
    /// can hold satisfies this.
    #[verifier::type_invariant]
    pub closed spec fn wf(self) -> bool {
        self.keys().no_duplicates()
    }

    /// The position of `key`, where it is present.
    pub open spec fn position(self, key: Seq<char>) -> Option<int> {
        if self.keys().contains(key) {
            Some(self.keys().index_of(key))
        } else {
            None
        }
    }

    /// The value stored under `key`, where it is present.
    pub open spec fn lookup(self, key: Seq<char>) -> Option<V> {
        if self@.dom().contains(key) {
            Some(self@[key])
        } else {
            None
        }
    }

    /// Keys and values have the same length, and in a well-formed map a
    /// key's position is the only index that holds it, so that the view maps
    /// each key to the value beside it.
    pub proof fn lemma_shape(self)
        ensures
            self.keys().len() == self.values().len(),
            self.wf() ==> self.keys().no_duplicates(),
            self.wf() ==> forall|i: int|
                0 <= i < self.keys().len() ==> self.position(#[trigger] self.keys()[i]) == Some(i),
            self.wf() ==> forall|i: int|
                0 <= i < self.keys().len() ==> self.lookup(#[trigger] self.keys()[i]) == Some(
                    self.values()[i],
                ),
    {
        if self.wf() {
            assert forall|i: int| 0 <= i < self.keys().len() implies self.position(
                #[trigger] self.keys()[i],
            ) == Some(i) by {
                let k = self.keys()[i];
                assert(self.keys().contains(k));
                let j = self.keys().index_of(k);
                assert(0 <= j < self.keys().len() && self.keys()[j] == k);
            }
        }
    }

    /// Replacing the value at a key's position, or appending a new key with
    /// its value, is insertion into the view.
    proof fn lemma_insert(before: Self, after: Self, key: Seq<char>, value: V)
        requires
            before.wf(),
            match before.position(key) {
                Some(i) => {
                    &&& after.keys() == before.keys()
                    &&& after.values() == before.values().update(i, value)
                },
                None => {
                    &&& after.keys() == before.keys().push(key)
                    &&& after.values() == before.values().push(value)
                },
            },
        ensures
            after.wf(),
            after@ == before@.insert(key, value),
    {
        before.lemma_shape();
        after.lemma_shape();
        let n = before.keys().len() as int;
        if before.position(key) is None {
            assert(after.keys()[n] == key);
            assert forall|i: int, j: int|
                0 <= i < after.keys().len() && 0 <= j < after.keys().len() && i != j implies after.keys()[i]
                != after.keys()[j] by {
                if i < n {
                    assert(before.keys()[i] == after.keys()[i]);
                }
                if j < n {
                    assert(before.keys()[j] == after.keys()[j]);
                }
            }
        }
        after.lemma_shape();
        assert forall|k: Seq<char>| after@.dom().contains(k) == before@.insert(
            key,
            value,
        ).dom().contains(k) by {
            if before.keys().contains(k) {
                let i = before.keys().index_of(k);
                assert(after.keys()[i] == k);
            }
            if after.keys().contains(k) && k != key {
                let i = after.keys().index_of(k);
                assert(i < n);
                assert(before.keys()[i] == k);
            }
            if k == key {
                match before.position(key) {
                    Some(i) => {
                        assert(after.keys()[i] == k);
                    },
                    None => {
                        assert(after.keys()[n] == k);
                    },
                }
            }
        }
        assert forall|k: Seq<char>| after@.dom().contains(k) implies after@[k] == before@.insert(
            key,
            value,
        )[k] by {
            let i = after.keys().index_of(k);
            assert(after.position(after.keys()[i]) == Some(i));
            if k != key {
                assert(i < n);
                assert(before.keys()[i] == k);
                assert(before.position(before.keys()[i]) == Some(i));
            } else {
                match before.position(key) {
                    Some(p) => {
                        assert(after.keys()[p] == k);
                        assert(after.position(after.keys()[p]) == Some(p));
                    },
                    None => {
                        assert(after.position(after.keys()[n]) == Some(n));
                    },
                }
            }
        }
        assert(after@ =~= before@.insert(key, value));
    }

    /// An empty map.
    pub fn new() -> (res: Self)
        ensures
            res.keys() == Seq::<Seq<char>>::empty(),
            res.values() == Seq::<V>::empty(),
            res@ == Map::<Seq<char>, V>::empty(),
            res.wf(),
    {
        let res = OrderedMap { entries: Vec::new() };
        assert(res.keys() =~= Seq::<Seq<char>>::empty());
        assert(res.values() =~= Seq::<V>::empty());
        assert(res@ =~= Map::<Seq<char>, V>::empty());
        res
    }

    /// The number of entries.
    pub fn len(&self) -> (res: usize)
        ensures
            res == self.keys().len(),
            res == self.values().len(),
            self.wf(),
    {
        proof {
            use_type_invariant(self);
        }
        self.entries.len()
    }

    /// The key at position `i`.
    pub fn key_at(&self, i: usize) -> (res: &str)
        requires
            i < self.keys().len(),
        ensures
            res@ == self.keys()[i as int],
    {
        self.entries[i].0.as_str()
    }

    /// The value at position `i`.
    pub fn value_at(&self, i: usize) -> (res: &V)
        requires
            i < self.values().len(),
        ensures
            *res == self.values()[i as int],
    {
        &self.entries[i].1
    }

    /// The position of `key`, or `None` where the map does not hold it.
    pub fn find(&self, key: &str) -> (res: Option<usize>)
        ensures
            self.wf(),
            match res {
                Some(i) => self.position(key@) == Some(i as int) && i < self.keys().len(),
                None => self.position(key@) is None,
            },
            res is Some <==> self@.dom().contains(key@),
    {
        proof {
            use_type_invariant(self);
        }
        let mut i: usize = 0;
        while i < self.entries.len()
            invariant
                i <= self.entries.len(),
                self.entries.len() == self.keys().len(),
                self.wf(),
                forall|j: int| 0 <= j < i ==> self.keys()[j] != key@,
            decreases self.entries.len() - i,
        {
            if str_eq(self.entries[i].0.as_str(), key) {
                proof {
                    self.lemma_shape();
                    assert(self.keys()[i as int] == key@);
                }
                return Some(i);
            }
            i = i + 1;
        }
        None
    }

    /// The value stored under `key`, or `None` where the map does not hold it.
    pub fn get(&self, key: &str) -> (res: Option<&V>)
        ensures
            match res {
                Some(v) => self.lookup(key@) == Some(*v),
                None => self.lookup(key@) is None,
            },
    {
        match self.find(key) {
            Some(i) => Some(&self.entries[i].1),
            None => None,
        }
    }

    /// Stores `value` under `key`. A key that is already present keeps its
    /// position and has its value replaced; a new key goes to the end.
    pub fn insert(&mut self, key: String, value: V)
        ensures
            final(self).wf(),
            final(self)@ == old(self)@.insert(key@, value),
            match old(self).position(key@) {
                Some(i) => {
                    &&& final(self).keys() == old(self).keys()
                    &&& final(self).values() == old(self).values().update(i, value)
                },
                None => {
                    &&& final(self).keys() == old(self).keys().push(key@)
                    &&& final(self).values() == old(self).values().push(value)
                },
            },
    {
        let found = self.find(key.as_str());
        proof {
            use_type_invariant(&*self);
        }
        let mut entries: Vec<(String, V)> = Vec::new();
        core::mem::swap(&mut self.entries, &mut entries);
        match found {
            Some(i) => {
                entries.set(i, (key, value));
            },
            None => {
                entries.push((key, value));
            },
        }
        proof {
            let after = OrderedMap { entries };
            match found {
                Some(i) => {
                    assert(after.keys() =~= old(self).keys());
                    assert(after.values() =~= old(self).values().update(i as int, value));
                },
                None => {
                    assert(after.keys() =~= old(self).keys().push(key@));
                    assert(after.values() =~= old(self).values().push(value));
                },
            }
            Self::lemma_insert(*old(self), after, key@, value);
        }
        core::mem::swap(&mut self.entries, &mut entries);
    }

    /// Takes the map apart into its values, in key order.
    pub fn into_values(self) -> (res: Vec<V>)
        ensures
            res@ == self.values(),
    {
        let ghost target = self.values();
        let mut entries = self.entries;
        let mut reversed: Vec<V> = Vec::new();
        while entries.len() > 0
            invariant
                entries@.len() + reversed@.len() == target.len(),
                forall|j: int|
                    0 <= j < entries@.len() ==> (#[trigger] entries@[j]).1 == target[j],
                forall|j: int|
                    0 <= j < reversed@.len() ==> #[trigger] reversed@[j] == target[target.len()
                        - 1 - j],
            decreases entries.len(),
        {
            let last = entries.pop();
            match last {
                Some(entry) => {
                    reversed.push(entry.1);
                },
                None => {},
            }
        }
        let mut res: Vec<V> = Vec::new();
        while reversed.len() > 0
            invariant
                res@.len() + reversed@.len() == target.len(),
                forall|j: int| 0 <= j < res@.len() ==> #[trigger] res@[j] == target[j],
                forall|j: int|
                    0 <= j < reversed@.len() ==> #[trigger] reversed@[j] == target[target.len()
                        - 1 - j],
            decreases reversed.len(),
        {
            let last = reversed.pop();
            match last {
                Some(value) => {
                    res.push(value);
                },
                None => {},
            }
        }
        assert(res@ =~= target);
        res
    }
}

} // verus!
