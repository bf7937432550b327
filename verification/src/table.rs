//! A small association table keyed by `u64`, the map underneath the per-client
//! caches. Its view is a `Map<u64, V>`; a key's binding is only ever replaced
//! explicitly through `set`, never disturbed by writes to other keys.
use vstd::prelude::*;

verus! {

/// An association table with unique keys, viewed as a `Map<u64, V>`.
#[derive(Debug)]
pub struct Table<V> {
    entries: Vec<(u64, V)>,
}

impl<V> View for Table<V> {
    type V = Map<u64, V>;

    closed spec fn view(&self) -> Map<u64, V> {
        Map::new(
            |k: u64| exists|i: int| 0 <= i < self.entries@.len() && self.entries@[i].0 == k,
            |k: u64|
                {
                    let i = choose|i: int|
                        0 <= i < self.entries@.len() && self.entries@[i].0 == k;
                    self.entries@[i].1
                },
        )
    }
}

impl<V> Table<V> {
    /// Well-formed: no key occurs twice.
    pub closed spec fn wf(&self) -> bool {
        forall|i: int, j: int|
            0 <= i < j < self.entries@.len() ==> self.entries@[i].0 != self.entries@[j].0
    }

    pub fn new() -> (t: Table<V>)
        ensures
            t@ == Map::<u64, V>::empty(),
            t.wf(),
    {
        let t = Table { entries: Vec::new() };
        proof {
            assert(t@ =~= Map::<u64, V>::empty());
        }
        t
    }

    /// With unique keys, the entry at any index is the binding the view gives
    /// its key.
    proof fn lemma_entry_is_binding(&self, i: int)
        requires
            self.wf(),
            0 <= i < self.entries@.len(),
        ensures
            self@.contains_key(self.entries@[i].0),
            self@[self.entries@[i].0] == self.entries@[i].1,
    {
        let k = self.entries@[i].0;
        let j = choose|j: int| 0 <= j < self.entries@.len() && self.entries@[j].0 == k;
        assert(j == i);
    }

    /// Look a key up.
    pub fn get(&self, key: u64) -> (r: Option<&V>)
        requires
            self.wf(),
        ensures
            match r {
                Some(v) => self@.contains_key(key) && *v == self@[key],
                None => !self@.contains_key(key),
            },
    {
        let n = self.entries.len();
        let mut i: usize = 0;
        while i < n
            invariant
                self.wf(),
                n == self.entries@.len(),
                0 <= i <= n,
                forall|j: int| 0 <= j < i ==> self.entries@[j].0 != key,
            decreases n - i,
        {
            if self.entries[i].0 == key {
                proof {
                    self.lemma_entry_is_binding(i as int);
                }
                return Some(&self.entries[i].1);
            }
            i = i + 1;
        }
        None
    }

    /// Bind a key to a value, replacing any earlier binding of that key and
    /// leaving every other key's binding as it was.
    pub fn set(&mut self, key: u64, value: V)
        requires
            old(self).wf(),
        ensures
            final(self).wf(),
            final(self)@ == old(self)@.insert(key, value),
    {
        let n = self.entries.len();
        let mut i: usize = 0;
        while i < n
            invariant
                self.wf(),
                *self == *old(self),
                n == self.entries@.len(),
                0 <= i <= n,
                forall|j: int| 0 <= j < i ==> self.entries@[j].0 != key,
            decreases n - i,
        {
            if self.entries[i].0 == key {
                self.entries[i] = (key, value);
                proof {
                    self.lemma_set_replaced(*old(self), i as int, key, value);
                }
                return ;
            }
            i = i + 1;
        }
        self.entries.push((key, value));
        proof {
            self.lemma_set_pushed(*old(self), key, value);
        }
    }

    /// After overwriting the entry at index `i`, the view is the old view with
    /// the key's binding replaced.
    proof fn lemma_set_replaced(&self, prior: Self, i: int, key: u64, value: V)
        requires
            prior.wf(),
            0 <= i < prior.entries@.len(),
            prior.entries@[i].0 == key,
            self.entries@ == prior.entries@.update(i, (key, value)),
        ensures
            self.wf(),
            self@ == prior@.insert(key, value),
    {
        assert forall|p: int, q: int|
            0 <= p < q < self.entries@.len() implies self.entries@[p].0 != self.entries@[q].0 by {
            assert(prior.entries@[p].0 != prior.entries@[q].0);
        }
        assert forall|k: u64| #[trigger] self@.contains_key(k) == prior@.insert(
            key,
            value,
        ).contains_key(k) by {
            if k == key {
                assert(self.entries@[i].0 == k);
            } else {
                if exists|p: int| 0 <= p < self.entries@.len() && self.entries@[p].0 == k {
                    let p = choose|p: int|
                        0 <= p < self.entries@.len() && self.entries@[p].0 == k;
                    assert(prior.entries@[p].0 == k);
                }
                if exists|p: int| 0 <= p < prior.entries@.len() && prior.entries@[p].0 == k {
                    let p = choose|p: int|
                        0 <= p < prior.entries@.len() && prior.entries@[p].0 == k;
                    assert(self.entries@[p].0 == k);
                }
            }
        }
        assert forall|k: u64| self@.contains_key(k) implies self@[k] == prior@.insert(
            key,
            value,
        )[k] by {
            let p = choose|p: int| 0 <= p < self.entries@.len() && self.entries@[p].0 == k;
            self.lemma_entry_is_binding(p);
            if k == key {
                assert(p == i);
            } else {
                assert(prior.entries@[p].0 == k);
                prior.lemma_entry_is_binding(p);
                assert(self.entries@[p] == prior.entries@[p]);
            }
        }
        assert(self@ =~= prior@.insert(key, value));
    }

    /// After appending a binding for a fresh key, the view is the old view
    /// with that binding added.
    proof fn lemma_set_pushed(&self, prior: Self, key: u64, value: V)
        requires
            prior.wf(),
            forall|j: int| 0 <= j < prior.entries@.len() ==> prior.entries@[j].0 != key,
            self.entries@ == prior.entries@.push((key, value)),
        ensures
            self.wf(),
            self@ == prior@.insert(key, value),
    {
        let n = prior.entries@.len() as int;
        assert forall|p: int, q: int|
            0 <= p < q < self.entries@.len() implies self.entries@[p].0 != self.entries@[q].0 by {
            if q < n {
                assert(prior.entries@[p].0 != prior.entries@[q].0);
            } else {
                assert(self.entries@[q].0 == key);
                assert(self.entries@[p].0 == prior.entries@[p].0);
            }
        }
        assert forall|k: u64| #[trigger] self@.contains_key(k) == prior@.insert(
            key,
            value,
        ).contains_key(k) by {
            if k == key {
                assert(self.entries@[n].0 == k);
            } else {
                if exists|p: int| 0 <= p < self.entries@.len() && self.entries@[p].0 == k {
                    let p = choose|p: int|
                        0 <= p < self.entries@.len() && self.entries@[p].0 == k;
                    assert(p < n);
                    assert(prior.entries@[p].0 == k);
                }
                if exists|p: int| 0 <= p < prior.entries@.len() && prior.entries@[p].0 == k {
                    let p = choose|p: int|
                        0 <= p < prior.entries@.len() && prior.entries@[p].0 == k;
                    assert(self.entries@[p].0 == k);
                }
            }
        }
        assert forall|k: u64| self@.contains_key(k) implies self@[k] == prior@.insert(
            key,
            value,
        )[k] by {
            let p = choose|p: int| 0 <= p < self.entries@.len() && self.entries@[p].0 == k;
            self.lemma_entry_is_binding(p);
            if k == key {
                assert(p == n);
            } else {
                assert(p < n);
                assert(prior.entries@[p].0 == k);
                prior.lemma_entry_is_binding(p);
            }
        }
        assert(self@ =~= prior@.insert(key, value));
    }

    /// Hand the bindings out as a vector of pairs: unique keys, each pair a
    /// binding of the view, and every key of the view present.
    pub fn into_entries(self) -> (v: Vec<(u64, V)>)
        requires
            self.wf(),
        ensures
            forall|i: int, j: int| 0 <= i < j < v@.len() ==> v@[i].0 != v@[j].0,
            forall|i: int|
                0 <= i < v@.len() ==> self@.contains_key(v@[i].0) && self@[v@[i].0] == v@[i].1,
            forall|k: u64|
                self@.contains_key(k) ==> exists|i: int| 0 <= i < v@.len() && v@[i].0 == k,
    {
        proof {
            assert forall|i: int|
                0 <= i < self.entries@.len() implies self@.contains_key(self.entries@[i].0)
                && self@[self.entries@[i].0] == self.entries@[i].1 by {
                self.lemma_entry_is_binding(i);
            }
        }
        self.entries
    }
}

} // verus!
