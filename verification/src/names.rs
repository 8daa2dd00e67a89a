//! A small map from names to values that remembers the order in which the
//! names were first written. The supervisor keeps a handful of programs, so a
//! linear scan is all it needs, and the order makes listings reproducible.

use vstd::prelude::*;

verus! {

/// A finite map keyed by name, in order of first insertion.
pub struct NameMap<V> {
    entries: Vec<(String, V)>,
}

impl<V> NameMap<V> {
    /// The names of the map, in the order in which they were first inserted.
    pub closed spec fn names(&self) -> Seq<Seq<char>> {
        Seq::new(self.entries@.len(), |i: int| self.entries@[i].0@)
    }

    /// The value stored at position `i` of the insertion order.
    pub closed spec fn value_at_spec(&self, i: int) -> V {
        self.entries@[i].1
    }

    /// No name occurs twice. Every map that the library hands out is well
    /// formed, and every operation keeps it so.
    pub closed spec fn wf(&self) -> bool {
        self.names().no_duplicates()
    }
}

impl<V> View for NameMap<V> {
    type V = Map<Seq<char>, V>;

    closed spec fn view(&self) -> Map<Seq<char>, V> {
        Map::new(
            |k: Seq<char>| self.names().contains(k),
            |k: Seq<char>| self.value_at_spec(self.names().index_of(k)),
        )
    }
}

impl<V> NameMap<V> {
    /// The keys of the map are exactly its names, and each name maps to the
    /// value at its position.
    pub proof fn lemma_view(&self)
        requires
            self.wf(),
        ensures
            self.names().no_duplicates(),
            self@.dom() =~= self.names().to_set(),
            forall|i: int|
                0 <= i < self.names().len() ==> #[trigger] self@[self.names()[i]]
                    == self.value_at_spec(i),
    {
        assert forall|i: int| 0 <= i < self.names().len() implies #[trigger] self@[self.names()[i]]
            == self.value_at_spec(i) by {
            let k = self.names()[i];
            assert(self.names().contains(k));
            let j = self.names().index_of(k);
            assert(self.names()[j] == k);
        }
    }

    /// An empty map.
    pub fn new() -> (m: Self)
        ensures
            m@ == Map::<Seq<char>, V>::empty(),
            m.names() == Seq::<Seq<char>>::empty(),
            m.wf(),
    {
        let m = NameMap { entries: Vec::new() };
        assert(m.names() =~= Seq::<Seq<char>>::empty());
        assert(m@ =~= Map::<Seq<char>, V>::empty());
        m
    }

    /// The number of names.
    pub fn len(&self) -> (n: usize)
        requires
            self.wf(),
        ensures
            n == self.names().len(),
            n == self@.len(),
    {
        proof {
            self.lemma_view();
            self.names().unique_seq_to_set();
        }
        self.entries.len()
    }

    /// Where `name` stands in the order of insertion, if it is a key.
    pub fn position(&self, name: &str) -> (at: Option<usize>)
        requires
            self.wf(),
        ensures
            match at {
                Some(i) => i < self.names().len() && self.names()[i as int] == name@
                    && self@.contains_key(name@) && self@[name@] == self.value_at_spec(i as int),
                None => !self.names().contains(name@) && !self@.contains_key(name@),
            },
    {
        proof {
            self.lemma_view();
        }
        let key = String::from_str(name);
        let mut i: usize = 0;
        while i < self.entries.len()
            invariant
                self.wf(),
                i <= self.entries@.len(),
                key@ == name@,
                forall|j: int| 0 <= j < i ==> self.names()[j] != name@,
            decreases self.entries@.len() - i,
        {
            if self.entries[i].0 == key {
                proof {
                    self.lemma_view();
                    assert(self.names()[i as int] == name@);
                    assert(self.names().contains(name@));
                    assert(self@[self.names()[i as int]] == self.value_at_spec(i as int));
                }
                return Some(i);
            }
            i += 1;
        }
        None
    }

    /// Whether `name` is a key of the map.
    pub fn contains_key(&self, name: &str) -> (b: bool)
        requires
            self.wf(),
        ensures
            b == self@.contains_key(name@),
    {
        self.position(name).is_some()
    }

    /// The value stored under `name`, if any.
    pub fn get(&self, name: &str) -> (v: Option<&V>)
        requires
            self.wf(),
        ensures
            match v {
                Some(x) => self@.contains_key(name@) && *x == self@[name@],
                None => !self@.contains_key(name@),
            },
    {
        match self.position(name) {
            Some(i) => Some(&self.entries[i].1),
            None => None,
        }
    }

    /// The name at position `i` of the insertion order.
    pub fn name_at(&self, i: usize) -> (name: &String)
        requires
            i < self.names().len(),
        ensures
            name@ == self.names()[i as int],
    {
        &self.entries[i].0
    }

    /// The value at position `i` of the insertion order.
    pub fn value_at(&self, i: usize) -> (v: &V)
        requires
            self.wf(),
            i < self.names().len(),
        ensures
            *v == self.value_at_spec(i as int),
            *v == self@[self.names()[i as int]],
    {
        proof {
            self.lemma_view();
        }
        &self.entries[i].1
    }

    /// Stores `value` under `name`. A name that is already a key keeps its
    /// place in the order and gets the new value; a new name goes to the end.
    pub fn insert(&mut self, name: String, value: V)
        requires
            old(self).wf(),
        ensures
            final(self)@ == old(self)@.insert(name@, value),
            final(self).names() == if old(self)@.contains_key(name@) {
                old(self).names()
            } else {
                old(self).names().push(name@)
            },
            final(self).wf(),
    {
        proof {
            self.lemma_view();
        }
        let ghost before = *self;
        match self.position(name.as_str()) {
            Some(i) => {
                self.entries.set(i, (name, value));
                proof {
                    assert(self.names() =~= before.names());
                    self.lemma_entries(before, i as int, name@, value);
                }
            },
            None => {
                self.entries.push((name, value));
                proof {
                    assert(self.names() =~= before.names().push(name@));
                    assert forall|a: int, b: int|
                        0 <= a < self.names().len() && 0 <= b < self.names().len() && a
                            != b implies self.names()[a] != self.names()[b] by {
                        if a < before.names().len() {
                            assert(before.names().contains(before.names()[a]));
                        }
                        if b < before.names().len() {
                            assert(before.names().contains(before.names()[b]));
                        }
                    }
                    self.lemma_entries(before, before.names().len() as int, name@, value);
                }
            },
        }
    }

    /// The view after one entry was written at position `at`: either over an
    /// entry of the same name, or behind the last entry.
    proof fn lemma_entries(&self, before: Self, at: int, name: Seq<char>, value: V)
        requires
            before.wf(),
            self.wf(),
            0 <= at <= before.names().len(),
            at < before.names().len() ==> before.names()[at] == name,
            at == before.names().len() ==> !before.names().contains(name),
            self.names() == if at < before.names().len() {
                before.names()
            } else {
                before.names().push(name)
            },
            self.value_at_spec(at) == value,
            forall|j: int|
                0 <= j < before.names().len() && j != at ==> self.value_at_spec(j)
                    == before.value_at_spec(j),
        ensures
            self@ == before@.insert(name, value),
    {
        self.lemma_view();
        before.lemma_view();
        let target = before@.insert(name, value);
        assert(self.names()[at] == name);
        assert forall|k: Seq<char>| self@.dom().contains(k) <==> target.dom().contains(k) by {
            if self.names().contains(k) {
                let j = self.names().index_of(k);
                assert(self.names()[j] == k);
                if j != at {
                    assert(before.names()[j] == k);
                    assert(before.names().contains(k));
                }
            }
            if before.names().contains(k) {
                let j = before.names().index_of(k);
                assert(before.names()[j] == k);
                assert(self.names()[j] == k);
            }
        }
        assert forall|k: Seq<char>| #[trigger] self@.dom().contains(k) implies self@[k]
            == target[k] by {
            let j = self.names().index_of(k);
            assert(self.names()[j] == k);
            assert(self@[self.names()[j]] == self.value_at_spec(j));
            if k != name {
                assert(j != at);
                assert(before.names()[j] == k);
                assert(before@[before.names()[j]] == before.value_at_spec(j));
            } else {
                assert(j == at);
            }
        }
        assert(self@ =~= target);
    }
}

} // verus!
