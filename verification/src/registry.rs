//! A small map from request ids to per-request state, kept as a vector of
//! entries whose ids are distinct.
use vstd::prelude::*;

use crate::text::str_eq;

verus! {

/// Per-request state, by request id.
#[derive(Clone, Debug, PartialEq, Eq)]
pub struct Registry<V> {
    entries: Vec<(String, V)>,
}

impl<V: View> Registry<V> {
    /// No two entries share an id.
    pub closed spec fn wf(&self) -> bool {
        forall|i: int, j: int|
            0 <= i < self.entries@.len() && 0 <= j < self.entries@.len() && i != j
                ==> #[trigger] self.entries@[i].0@ != #[trigger] self.entries@[j].0@
    }

    /// Whether an entry has id `k`.
    pub closed spec fn has(&self, k: Seq<char>) -> bool {
        exists|i: int| 0 <= i < self.entries@.len() && #[trigger] self.entries@[i].0@ == k
    }

    /// The state of each request, by id.
    pub closed spec fn map(&self) -> Map<Seq<char>, V::V> {
        Map::new(
            |k: Seq<char>| self.has(k),
            |k: Seq<char>|
                self.entries@[choose|i: int|
                    0 <= i < self.entries@.len() && #[trigger] self.entries@[i].0@ == k].1@,
        )
    }

    proof fn lemma_at(&self, i: int)
        requires
            self.wf(),
            0 <= i < self.entries@.len(),
        ensures
            self.map().contains_key(self.entries@[i].0@),
            self.map()[self.entries@[i].0@] == self.entries@[i].1@,
    {
        let k = self.entries@[i].0@;
        assert(self.has(k));
        let j = choose|j: int| 0 <= j < self.entries@.len() && #[trigger] self.entries@[j].0@ == k;
        assert(j == i);
    }

    /// No requests.
    pub fn new() -> (r: Registry<V>)
        ensures
            r.wf(),
            r.map() == Map::<Seq<char>, V::V>::empty(),
    {
        let r = Registry { entries: Vec::new() };
        assert(r.map() =~= Map::<Seq<char>, V::V>::empty());
        r
    }

    /// The position of the entry with id `id`.
    fn find(&self, id: &str) -> (r: Option<usize>)
        requires
            self.wf(),
        ensures
            match r {
                Some(i) => i < self.entries@.len() && self.entries@[i as int].0@ == id@,
                None => !self.has(id@) && !self.map().contains_key(id@),
            },
    {
        let mut i: usize = 0;
        while i < self.entries.len()
            invariant
                i <= self.entries@.len(),
                forall|j: int| 0 <= j < i ==> self.entries@[j].0@ != id@,
            decreases self.entries@.len() - i,
        {
            if str_eq(self.entries[i].0.as_str(), id) {
                return Some(i);
            }
            i = i + 1;
        }
        None
    }

    /// The state of the request with `id`.
    pub fn get(&self, id: &str) -> (r: Option<&V>)
        requires
            self.wf(),
        ensures
            match r {
                Some(v) => self.map().contains_key(id@) && v@ == self.map()[id@],
                None => !self.map().contains_key(id@),
            },
    {
        match self.find(id) {
            Some(i) => {
                proof {
                    self.lemma_at(i as int);
                }
                Some(&self.entries[i].1)
            },
            None => None,
        }
    }

    /// Whether nothing is registered.
    pub fn is_empty(&self) -> (r: bool)
        ensures
            r == (self.map() == Map::<Seq<char>, V::V>::empty()),
    {
        if self.entries.len() == 0 {
            assert(self.map() =~= Map::<Seq<char>, V::V>::empty());
            true
        } else {
            assert(self.has(self.entries@[0].0@));
            assert(self.map().contains_key(self.entries@[0].0@));
            false
        }
    }

    /// Whether a request with `id` is registered.
    pub fn contains(&self, id: &str) -> (r: bool)
        requires
            self.wf(),
        ensures
            r == self.map().contains_key(id@),
    {
        match self.find(id) {
            Some(i) => {
                proof {
                    self.lemma_at(i as int);
                }
                true
            },
            None => false,
        }
    }

    /// Takes out the state of the request with `id`.
    pub fn remove(&mut self, id: &str) -> (r: Option<V>)
        requires
            old(self).wf(),
        ensures
            final(self).wf(),
            match r {
                Some(v) => old(self).map().contains_key(id@) && v@ == old(self).map()[id@]
                    && final(self).map() == old(self).map().remove(id@),
                None => !old(self).map().contains_key(id@) && final(self).map() == old(
                    self,
                ).map(),
            },
    {
        match self.find(id) {
            None => None,
            Some(i) => {
                proof {
                    self.lemma_at(i as int);
                }
                let ghost before = self.entries@;
                let entry = self.entries.remove(i);
                proof {
                    let after = self.entries@;
                    assert forall|a: int, b: int|
                        0 <= a < after.len() && 0 <= b < after.len() && a != b implies #[trigger] after[a].0@
                        != #[trigger] after[b].0@ by {
                        let a2 = if a < i { a } else { a + 1 };
                        let b2 = if b < i { b } else { b + 1 };
                        assert(after[a] == before[a2]);
                        assert(after[b] == before[b2]);
                    }
                    assert forall|k: Seq<char>|
                        #![auto]
                        self.map().contains_key(k) == old(self).map().remove(id@).contains_key(k) by {
                        if self.has(k) {
                            let j = choose|j: int|
                                0 <= j < after.len() && #[trigger] after[j].0@ == k;
                            let j2 = if j < i { j } else { j + 1 };
                            assert(before[j2].0@ == k);
                        }
                        if old(self).has(k) && k != id@ {
                            let j = choose|j: int|
                                0 <= j < before.len() && #[trigger] before[j].0@ == k;
                            assert(j != i);
                            let j2 = if j < i { j } else { j - 1 };
                            assert(after[j2].0@ == k);
                        }
                    }
                    assert forall|k: Seq<char>|
                        #[trigger] self.map().contains_key(k) implies self.map()[k] == old(
                            self,
                        ).map()[k] by {
                        let j = choose|j: int| 0 <= j < after.len() && #[trigger] after[j].0@ == k;
                        self.lemma_at(j);
                        let j2 = if j < i { j } else { j + 1 };
                        assert(before[j2] == after[j]);
                        old(self).lemma_at(j2);
                    }
                    assert(self.map() =~= old(self).map().remove(id@));
                }
                Some(entry.1)
            },
        }
    }

    /// Registers `value` for `id`, replacing any earlier state of that request.
    pub fn insert(&mut self, id: String, value: V)
        requires
            old(self).wf(),
        ensures
            final(self).wf(),
            final(self).map() == old(self).map().insert(id@, value@),
    {
        let _ = self.remove(id.as_str());
        assert(!self.map().contains_key(id@));
        let ghost mid = *self;
        assert(!mid.has(id@));
        let ghost before = self.entries@;
        let ghost k0 = id@;
        let ghost v0 = value@;
        self.entries.push((id, value));
        proof {
            let after = self.entries@;
            assert(after.len() == before.len() + 1);
            assert forall|a: int, b: int|
                0 <= a < after.len() && 0 <= b < after.len() && a != b implies #[trigger] after[a].0@
                != #[trigger] after[b].0@ by {
                if a < before.len() && b < before.len() {
                    assert(after[a] == before[a] && after[b] == before[b]);
                } else if a == before.len() {
                    assert(after[b] == before[b]);
                    if after[b].0@ == k0 {
                        assert(mid.has(k0));
                    }
                } else {
                    assert(after[a] == before[a]);
                    if after[a].0@ == k0 {
                        assert(mid.has(k0));
                    }
                }
            }
            assert forall|k: Seq<char>|
                #![auto]
                self.map().contains_key(k) == mid.map().insert(k0, v0).contains_key(k) by {
                if self.has(k) {
                    let j = choose|j: int| 0 <= j < after.len() && #[trigger] after[j].0@ == k;
                    if j < before.len() {
                        assert(before[j].0@ == k);
                    }
                }
                if mid.has(k) {
                    let j = choose|j: int| 0 <= j < before.len() && #[trigger] before[j].0@ == k;
                    assert(after[j].0@ == k);
                }
                if k == k0 {
                    assert(after[before.len() as int].0@ == k);
                }
            }
            assert forall|k: Seq<char>|
                #[trigger] self.map().contains_key(k) implies self.map()[k] == mid.map().insert(
                    k0,
                    v0,
                )[k] by {
                let j = choose|j: int| 0 <= j < after.len() && #[trigger] after[j].0@ == k;
                self.lemma_at(j);
                if j < before.len() {
                    assert(after[j] == before[j]);
                    mid.lemma_at(j);
                    if k == k0 {
                        assert(mid.has(k0));
                    }
                }
            }
            assert(self.map() =~= mid.map().insert(k0, v0));
            assert(mid.map().insert(k0, v0) =~= old(self).map().insert(k0, v0));
        }
    }
}

} // verus!
