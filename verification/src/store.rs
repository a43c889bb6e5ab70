//! A keyed record store with the semantics of contract storage under one
//! key prefix: at most one record per key, records kept in the order in which
//! their keys were first written.

use vstd::prelude::*;

verus! {

/// Records keyed by `u128`, oldest key first.
pub struct Store<V> {
    pub entries: Vec<(u128, V)>,
}

impl<V> Store<V> {
    /// No key occurs twice.
    pub open spec fn wf(self) -> bool {
        forall|i: int, j: int|
            0 <= i < j < self.entries@.len() ==> #[trigger] self.entries@[i].0
                != #[trigger] self.entries@[j].0
    }

    pub open spec fn has(self, k: u128) -> bool {
        exists|i: int| 0 <= i < self.entries@.len() && #[trigger] self.entries@[i].0 == k
    }

    pub open spec fn index_of(self, k: u128) -> int {
        choose|i: int| 0 <= i < self.entries@.len() && #[trigger] self.entries@[i].0 == k
    }

    pub open spec fn at(self, k: u128) -> V {
        self.entries@[self.index_of(k)].1
    }

    /// The records as a map from key to record.
    pub open spec fn view(self) -> Map<u128, V> {
        Map::new(|k: u128| self.has(k), |k: u128| self.at(k))
    }

    /// The keys in storage order.
    pub open spec fn keys(self) -> Seq<u128> {
        self.entries@.map_values(|e: (u128, V)| e.0)
    }

    pub proof fn lemma_at(self, i: int)
        requires
            self.wf(),
            0 <= i < self.entries@.len(),
        ensures
            self.has(self.entries@[i].0),
            self.index_of(self.entries@[i].0) == i,
            self.at(self.entries@[i].0) == self.entries@[i].1,
            self@.contains_key(self.entries@[i].0),
            self@[self.entries@[i].0] == self.entries@[i].1,
    {
        let k = self.entries@[i].0;
        assert(self.has(k));
        let j = self.index_of(k);
        if j != i {
            if j < i {
                assert(self.entries@[j].0 != self.entries@[i].0);
            } else {
                assert(self.entries@[i].0 != self.entries@[j].0);
            }
        }
    }

    pub fn new() -> (s: Self)
        ensures
            s.wf(),
            s@ == Map::<u128, V>::empty(),
            s.entries@.len() == 0,
    {
        let s = Store { entries: Vec::new() };
        assert(s@ =~= Map::<u128, V>::empty());
        s
    }

    pub fn len(&self) -> (n: usize)
        ensures
            n == self.entries@.len(),
    {
        self.entries.len()
    }

    /// Position of the record under `k`.
    pub fn find(&self, k: u128) -> (r: Option<usize>)
        requires
            self.wf(),
        ensures
            r is None <==> !self@.contains_key(k),
            r matches Some(i) ==> i < self.entries@.len() && self.entries@[i as int].0 == k
                && self.index_of(k) == i,
    {
        let mut i: usize = 0;
        while i < self.entries.len()
            invariant
                self.wf(),
                0 <= i <= self.entries@.len(),
                forall|j: int| 0 <= j < i ==> #[trigger] self.entries@[j].0 != k,
            decreases self.entries@.len() - i,
        {
            if self.entries[i].0 == k {
                proof {
                    self.lemma_at(i as int);
                }
                return Some(i);
            }
            i = i + 1;
        }
        None
    }

    pub fn contains(&self, k: u128) -> (b: bool)
        requires
            self.wf(),
        ensures
            b == self@.contains_key(k),
    {
        self.find(k).is_some()
    }

    pub fn get(&self, k: u128) -> (r: Option<&V>)
        requires
            self.wf(),
        ensures
            r is Some <==> self@.contains_key(k),
            r matches Some(v) ==> *v == self@[k],
    {
        match self.find(k) {
            Some(i) => {
                proof {
                    self.lemma_at(i as int);
                }
                Some(&self.entries[i].1)
            },
            None => None,
        }
    }

    /// Write `v` under `k`, replacing any record there.
    pub fn set(&mut self, k: u128, v: V)
        requires
            old(self).wf(),
        ensures
            final(self).wf(),
            final(self)@ == old(self)@.insert(k, v),
            old(self)@.contains_key(k) ==> final(self).keys() == old(self).keys(),
            !old(self)@.contains_key(k) ==> final(self).keys() == old(self).keys().push(k),
            old(self)@.contains_key(k) ==> final(self).entries@ == old(self).entries@.update(old(self).index_of(k), (k, v)),
            !old(self)@.contains_key(k) ==> final(self).entries@ == old(self).entries@.push((k, v)),
    {
        let ghost pre = *self;
        match self.find(k) {
            Some(i) => {
                self.entries.set(i, (k, v));
                proof {
                    assert forall|a: int, b: int|
                        0 <= a < b < self.entries@.len() implies #[trigger] self.entries@[a].0
                        != #[trigger] self.entries@[b].0 by {
                        assert(pre.entries@[a].0 != pre.entries@[b].0);
                    }
                    assert forall|q: u128| #[trigger] self@.contains_key(q) == pre@.insert(k, v).contains_key(q)
                        && (self@.contains_key(q) ==> self@[q] == pre@.insert(k, v)[q]) by {
                        if q == k {
                            self.lemma_at(i as int);
                        } else if pre.has(q) {
                            let j = pre.index_of(q);
                            pre.lemma_at(j);
                            assert(self.entries@[j].0 == q);
                            self.lemma_at(j);
                        } else {
                            if self.has(q) {
                                let j = self.index_of(q);
                                assert(pre.entries@[j].0 == q);
                            }
                        }
                    }
                    assert(self@ =~= pre@.insert(k, v));
                    assert(self.keys() =~= pre.keys());
                }
            },
            None => {
                self.entries.push((k, v));
                proof {
                    let n = pre.entries@.len() as int;
                    assert forall|a: int, b: int|
                        0 <= a < b < self.entries@.len() implies #[trigger] self.entries@[a].0
                        != #[trigger] self.entries@[b].0 by {
                        if b == n {
                            assert(pre.entries@[a].0 == self.entries@[a].0);
                        } else {
                            assert(pre.entries@[a].0 != pre.entries@[b].0);
                        }
                    }
                    assert forall|q: u128| #[trigger] self@.contains_key(q) == pre@.insert(k, v).contains_key(q)
                        && (self@.contains_key(q) ==> self@[q] == pre@.insert(k, v)[q]) by {
                        if q == k {
                            self.lemma_at(n);
                        } else if pre.has(q) {
                            let j = pre.index_of(q);
                            pre.lemma_at(j);
                            assert(self.entries@[j] == pre.entries@[j]);
                            self.lemma_at(j);
                        } else {
                            if self.has(q) {
                                let j = self.index_of(q);
                                if j < n {
                                    assert(pre.entries@[j].0 == q);
                                }
                            }
                        }
                    }
                    assert(self@ =~= pre@.insert(k, v));
                    assert(self.keys() =~= pre.keys().push(k));
                }
            },
        }
    }

    /// Delete the record under `k`, if any; the others keep their order.
    pub fn remove(&mut self, k: u128)
        requires
            old(self).wf(),
        ensures
            final(self).wf(),
            final(self)@ == old(self)@.remove(k),
            old(self)@.contains_key(k) ==> final(self).entries@.len() == old(self).entries@.len() - 1,
            old(self)@.contains_key(k) ==> final(self).entries@ == old(self).entries@.remove(old(self).index_of(k)),
            !old(self)@.contains_key(k) ==> final(self).entries@ == old(self).entries@,
    {
        let ghost pre = *self;
        match self.find(k) {
            Some(i) => {
                self.entries.remove(i);
                proof {
                    let ii = i as int;
                    assert forall|a: int, b: int|
                        0 <= a < b < self.entries@.len() implies #[trigger] self.entries@[a].0
                        != #[trigger] self.entries@[b].0 by {
                        let pa = if a < ii { a } else { a + 1 };
                        let pb = if b < ii { b } else { b + 1 };
                        assert(self.entries@[a] == pre.entries@[pa]);
                        assert(self.entries@[b] == pre.entries@[pb]);
                        assert(pre.entries@[pa].0 != pre.entries@[pb].0);
                    }
                    assert forall|q: u128| #[trigger] self@.contains_key(q) == pre@.remove(k).contains_key(q)
                        && (self@.contains_key(q) ==> self@[q] == pre@.remove(k)[q]) by {
                        if self.has(q) {
                            let j = self.index_of(q);
                            let pj = if j < ii { j } else { j + 1 };
                            assert(self.entries@[j] == pre.entries@[pj]);
                            pre.lemma_at(pj);
                            pre.lemma_at(ii);
                            if q == k {
                                assert(pj != ii);
                                if pj < ii {
                                    assert(pre.entries@[pj].0 != pre.entries@[ii].0);
                                } else {
                                    assert(pre.entries@[ii].0 != pre.entries@[pj].0);
                                }
                            }
                            self.lemma_at(j);
                        } else if pre.has(q) && q != k {
                            let pj = pre.index_of(q);
                            pre.lemma_at(pj);
                            pre.lemma_at(ii);
                            let j = if pj < ii { pj } else { pj - 1 };
                            assert(self.entries@[j] == pre.entries@[pj]);
                        }
                    }
                    assert(self@ =~= pre@.remove(k));
                }
            },
            None => {
                assert(self@ =~= pre@.remove(k));
            },
        }
    }
}

} // verus!
