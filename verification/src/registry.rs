//! A map from function names to values, kept in insertion order. Each name
//! stands in it at most once: a backend holds at most one record per function.
use vstd::prelude::*;

use crate::text::str_eq;

verus! {

/// Map from names to values of type `V`.
#[derive(Debug)]
pub struct NameMap<V> {
    pub entries: Vec<(String, V)>,
}

impl<V> NameMap<V> {
    /// Whether `name` has an entry.
    pub open spec fn contains(&self, name: Seq<char>) -> bool {
        exists|i: int| 0 <= i < self.entries.len() && (#[trigger] self.entries[i]).0@ == name
    }

    /// The position of the entry of `name`.
    pub open spec fn index_of(&self, name: Seq<char>) -> int {
        choose|i: int| 0 <= i < self.entries.len() && (#[trigger] self.entries[i]).0@ == name
    }

    /// No name stands twice.
    pub open spec fn wf(&self) -> bool {
        forall|i: int, j: int|
            0 <= i < j < self.entries.len() ==> (#[trigger] self.entries[i]).0@ != (
            #[trigger] self.entries[j]).0@
    }

    /// The map that the entries describe.
    pub open spec fn view(&self) -> Map<Seq<char>, V> {
        Map::new(|k: Seq<char>| self.contains(k), |k: Seq<char>| self.entries[self.index_of(k)].1)
    }

    /// The entry at a position is the entry of its name.
    pub proof fn lemma_entry(&self, i: int)
        requires
            self.wf(),
            0 <= i < self.entries.len(),
        ensures
            self.contains(self.entries[i].0@),
            self.index_of(self.entries[i].0@) == i,
            self@.dom().contains(self.entries[i].0@),
            self@[self.entries[i].0@] == self.entries[i].1,
    {
        let k = self.entries[i].0@;
        let j = self.index_of(k);
        if j < i {
            assert(self.entries[j].0@ != self.entries[i].0@);
        } else if i < j {
            assert(self.entries[i].0@ != self.entries[j].0@);
        }
    }

    /// The map without entries.
    pub fn new() -> (m: Self)
        ensures
            m.wf(),
            m@ == Map::<Seq<char>, V>::empty(),
    {
        let m = NameMap { entries: Vec::new() };
        m
    }

    /// The number of entries.
    pub fn len(&self) -> (n: usize)
        ensures
            n == self.entries.len(),
    {
        self.entries.len()
    }

    /// The position of the entry of `name`, if it has one.
    pub fn find(&self, name: &str) -> (r: Option<usize>)
        ensures
            match r {
                Some(i) => i < self.entries.len() && self.entries[i as int].0@ == name@,
                None => !self.contains(name@),
            },
    {
        let mut i: usize = 0;
        while i < self.entries.len()
            invariant
                i <= self.entries.len(),
                forall|j: int| 0 <= j < i ==> (#[trigger] self.entries[j]).0@ != name@,
            decreases self.entries.len() - i,
        {
            if str_eq(self.entries[i].0.as_str(), name) {
                return Some(i);
            }
            i += 1;
        }
        None
    }

    /// Whether `name` has an entry.
    pub fn contains_key(&self, name: &str) -> (b: bool)
        ensures
            b == self@.dom().contains(name@),
    {
        self.find(name).is_some()
    }

    /// The value of `name`, if it has one.
    pub fn get(&self, name: &str) -> (r: Option<&V>)
        requires
            self.wf(),
        ensures
            match r {
                Some(v) => self@.dom().contains(name@) && *v == self@[name@],
                None => !self@.dom().contains(name@),
            },
    {
        match self.find(name) {
            Some(i) => {
                proof {
                    self.lemma_entry(i as int);
                }
                Some(&self.entries[i].1)
            },
            None => None,
        }
    }

    /// Gives `name` the value `value`, in place of the one it had, if any.
    pub fn insert(&mut self, name: String, value: V)
        requires
            old(self).wf(),
        ensures
            final(self).wf(),
            final(self)@ == old(self)@.insert(name@, value),
    {
        let ghost before = *self;
        match self.find(name.as_str()) {
            Some(i) => {
                self.entries.set(i, (name, value));
                proof {
                    assert forall|a: int, b: int| 0 <= a < b < self.entries.len() implies (
                    #[trigger] self.entries[a]).0@ != (#[trigger] self.entries[b]).0@ by {
                        assert(before.entries[a].0@ != before.entries[b].0@);
                    }
                    assert forall|k: Seq<char>| #[trigger]
                        self@.dom().contains(k) == before@.insert(name@, value).dom().contains(
                            k,
                        ) by {
                        if before.contains(k) {
                            let j = before.index_of(k);
                            assert(self.entries[j].0@ == k);
                        }
                        if self.contains(k) {
                            let j = self.index_of(k);
                        }
                    }
                    assert forall|k: Seq<char>| #[trigger]
                        self@.dom().contains(k) implies self@[k] == before@.insert(
                        name@,
                        value,
                    )[k] by {
                        let j = self.index_of(k);
                        self.lemma_entry(j);
                        if j != i {
                            before.lemma_entry(j);
                            before.lemma_entry(i as int);
                        }
                    }
                }
            },
            None => {
                self.entries.push((name, value));
                proof {
                    let n = before.entries.len() as int;
                    assert forall|a: int, b: int| 0 <= a < b < self.entries.len() implies (
                    #[trigger] self.entries[a]).0@ != (#[trigger] self.entries[b]).0@ by {
                        if b < n {
                            assert(before.entries[a].0@ != before.entries[b].0@);
                        } else {
                            assert(before.entries[a].0@ != name@);
                        }
                    }
                    assert forall|k: Seq<char>| #[trigger]
                        self@.dom().contains(k) == before@.insert(name@, value).dom().contains(
                            k,
                        ) by {
                        if before.contains(k) {
                            let j = before.index_of(k);
                            assert(self.entries[j].0@ == k);
                        }
                        if k == name@ {
                            assert(self.entries[n].0@ == k);
                        }
                        if self.contains(k) {
                            let j = self.index_of(k);
                            if j < n {
                                assert(before.entries[j].0@ == k);
                            }
                        }
                    }
                    assert forall|k: Seq<char>| #[trigger]
                        self@.dom().contains(k) implies self@[k] == before@.insert(
                        name@,
                        value,
                    )[k] by {
                        let j = self.index_of(k);
                        self.lemma_entry(j);
                        if j < n {
                            before.lemma_entry(j);
                        }
                    }
                }
            },
        }
    }

    /// Takes every entry out, in insertion order, and leaves the map empty.
    pub fn take_all(&mut self) -> (all: Vec<(String, V)>)
        ensures
            all@ == old(self).entries@,
            final(self).wf(),
            final(self)@ == Map::<Seq<char>, V>::empty(),
    {
        let mut all: Vec<(String, V)> = Vec::new();
        std::mem::swap(&mut self.entries, &mut all);
        all
    }
}

} // verus!
