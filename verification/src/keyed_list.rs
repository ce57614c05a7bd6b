use vstd::prelude::*;

verus! {

/// No key occurs in two entries.
pub open spec fn keys_unique<V>(s: Seq<(String, V)>) -> bool {
    forall|i: int, j: int| 0 <= i < j < s.len() ==> #[trigger] s[i].0@ != #[trigger] s[j].0@
}

proof fn lemma_unique_after_update<V>(s: Seq<(String, V)>, i: int, e: (String, V))
    requires
        keys_unique(s),
        0 <= i < s.len(),
        e.0@ == s[i].0@,
    ensures
        keys_unique(s.update(i, e)),
{
    let t = s.update(i, e);
    assert forall|a: int, b: int| 0 <= a < b < t.len() implies #[trigger] t[a].0@ != #[trigger] t[b].0@ by {
        assert(s[a].0@ != s[b].0@);
    }
}

proof fn lemma_unique_after_push<V>(s: Seq<(String, V)>, e: (String, V))
    requires
        keys_unique(s),
        forall|j: int| 0 <= j < s.len() ==> #[trigger] s[j].0@ != e.0@,
    ensures
        keys_unique(s.push(e)),
{
    let t = s.push(e);
    assert forall|a: int, b: int| 0 <= a < b < t.len() implies #[trigger] t[a].0@ != #[trigger] t[b].0@ by {
        if b == s.len() {
            assert(s[a].0@ != e.0@);
        } else {
            assert(s[a].0@ != s[b].0@);
        }
    }
}

proof fn lemma_unique_after_remove<V>(s: Seq<(String, V)>, i: int)
    requires
        keys_unique(s),
        0 <= i < s.len(),
    ensures
        keys_unique(s.remove(i)),
{
    let t = s.remove(i);
    assert forall|a: int, b: int| 0 <= a < b < t.len() implies #[trigger] t[a].0@ != #[trigger] t[b].0@ by {
        let a0 = if a < i { a } else { a + 1 };
        let b0 = if b < i { b } else { b + 1 };
        assert(t[a] == s[a0]);
        assert(t[b] == s[b0]);
        assert(s[a0].0@ != s[b0].0@);
    }
}

/// A map from text keys to values, kept as a list of entries in which no key
/// occurs twice.
pub struct KeyedList<V> {
    entries: Vec<(String, V)>,
}

impl<V> KeyedList<V> {
    #[verifier::type_invariant]
    spec fn well_formed(&self) -> bool {
        keys_unique(self.entries@)
    }

    /// Some entry has key `k`.
    pub closed spec fn has(&self, k: Seq<char>) -> bool {
        exists|i: int| 0 <= i < self.entries@.len() && #[trigger] self.entries@[i].0@ == k
    }

    /// The position of the entry with key `k`.
    pub closed spec fn position(&self, k: Seq<char>) -> int {
        choose|i: int| 0 <= i < self.entries@.len() && #[trigger] self.entries@[i].0@ == k
    }

    /// The map from each key to the value stored with it.
    pub closed spec fn stored(&self) -> Map<Seq<char>, V> {
        Map::new(|k: Seq<char>| self.has(k), |k: Seq<char>| self.entries@[self.position(k)].1)
    }

    proof fn lemma_position(&self, i: int)
        requires
            keys_unique(self.entries@),
            0 <= i < self.entries@.len(),
        ensures
            self.has(self.entries@[i].0@),
            self.position(self.entries@[i].0@) == i,
            self.stored().contains_key(self.entries@[i].0@),
            self.stored()[self.entries@[i].0@] == self.entries@[i].1,
    {
        let k = self.entries@[i].0@;
        assert(self.has(k));
        let p = self.position(k);
        if p != i {
            if p < i {
                assert(self.entries@[p].0@ != self.entries@[i].0@);
            } else {
                assert(self.entries@[i].0@ != self.entries@[p].0@);
            }
        }
    }

    /// An empty list.
    pub fn new() -> (r: Self)
        ensures
            r.stored() == Map::<Seq<char>, V>::empty(),
    {
        let r = KeyedList { entries: Vec::new() };
        assert(r.stored() =~= Map::<Seq<char>, V>::empty());
        r
    }

    fn find(&self, key: &String) -> (r: Option<usize>)
        ensures
            match r {
                Some(i) => i < self.entries@.len() && self.entries@[i as int].0@ == key@,
                None => !self.has(key@),
            },
    {
        let mut i: usize = 0;
        while i < self.entries.len()
            invariant
                i <= self.entries@.len(),
                forall|j: int| 0 <= j < i ==> #[trigger] self.entries@[j].0@ != key@,
            decreases self.entries@.len() - i,
        {
            if self.entries[i].0 == *key {
                return Some(i);
            }
            i = i + 1;
        }
        None
    }

    /// The value stored under `key`, if any.
    pub fn get(&self, key: &String) -> (r: Option<&V>)
        ensures
            match r {
                Some(v) => self.stored().contains_key(key@) && *v == self.stored()[key@],
                None => !self.stored().contains_key(key@),
            },
    {
        proof {
            use_type_invariant(self);
        }
        match self.find(key) {
            Some(i) => {
                proof {
                    self.lemma_position(i as int);
                }
                Some(&self.entries[i].1)
            },
            None => None,
        }
    }

    /// Stores `value` under `key`, replacing what was stored there.
    pub fn insert(&mut self, key: String, value: V)
        ensures
            final(self).stored() == old(self).stored().insert(key@, value),
    {
        proof {
            use_type_invariant(&*self);
        }
        let ghost k = key@;
        let ghost pre = *self;
        match self.find(&key) {
            Some(i) => {
                let entry = (key, value);
                proof {
                    lemma_unique_after_update(self.entries@, i as int, entry);
                }
                let mut entries = Vec::new();
                std::mem::swap(&mut entries, &mut self.entries);
                entries.set(i, entry);
                self.entries = entries;
                proof {
                    assert forall|q: Seq<char>| #[trigger] self.has(q) == pre.stored().insert(k, value).contains_key(q) by {
                        if q == k {
                            assert(self.entries@[i as int].0@ == q);
                        } else if pre.has(q) {
                            let p = pre.position(q);
                            assert(self.entries@[p].0@ == q);
                        } else if self.has(q) {
                            let p = self.position(q);
                            assert(pre.entries@[p].0@ == q);
                        }
                    }
                    assert forall|q: Seq<char>| self.has(q) implies #[trigger] self.stored()[q] == pre.stored().insert(k, value)[q] by {
                        let p = self.position(q);
                        self.lemma_position(p);
                        if q != k {
                            assert(pre.entries@[p].0@ == q);
                            pre.lemma_position(p);
                        }
                    }
                    assert(self.stored() =~= pre.stored().insert(k, value));
                }
            },
            None => {
                let entry = (key, value);
                proof {
                    lemma_unique_after_push(self.entries@, entry);
                }
                let mut entries = Vec::new();
                std::mem::swap(&mut entries, &mut self.entries);
                entries.push(entry);
                self.entries = entries;
                proof {
                    let n = pre.entries@.len() as int;
                    assert forall|q: Seq<char>| #[trigger] self.has(q) == pre.stored().insert(k, value).contains_key(q) by {
                        if q == k {
                            assert(self.entries@[n].0@ == q);
                        } else if pre.has(q) {
                            let p = pre.position(q);
                            assert(self.entries@[p].0@ == q);
                        } else if self.has(q) {
                            let p = self.position(q);
                            assert(pre.entries@[p].0@ == q);
                        }
                    }
                    assert forall|q: Seq<char>| self.has(q) implies #[trigger] self.stored()[q] == pre.stored().insert(k, value)[q] by {
                        let p = self.position(q);
                        self.lemma_position(p);
                        if q != k {
                            assert(pre.entries@[p].0@ == q);
                            pre.lemma_position(p);
                        }
                    }
                    assert(self.stored() =~= pre.stored().insert(k, value));
                }
            },
        }
    }

    /// Removes the value stored under `key` and hands it back, if any.
    pub fn take(&mut self, key: &String) -> (r: Option<V>)
        ensures
            final(self).stored() == old(self).stored().remove(key@),
            match r {
                Some(v) => old(self).stored().contains_key(key@) && v == old(self).stored()[key@],
                None => !old(self).stored().contains_key(key@),
            },
    {
        proof {
            use_type_invariant(&*self);
        }
        let ghost k = key@;
        let ghost pre = *self;
        match self.find(key) {
            Some(i) => {
                proof {
                    self.lemma_position(i as int);
                    lemma_unique_after_remove(self.entries@, i as int);
                }
                let mut entries = Vec::new();
                std::mem::swap(&mut entries, &mut self.entries);
                let (_, v) = entries.remove(i);
                self.entries = entries;
                proof {
                    let ii = i as int;
                    assert forall|q: Seq<char>| #[trigger] self.has(q) == pre.stored().remove(k).contains_key(q) by {
                        if self.has(q) {
                            let p = self.position(q);
                            let p0 = if p < ii { p } else { p + 1 };
                            assert(pre.entries@[p0].0@ == q);
                            assert(p0 != ii);
                            assert(pre.entries@[p0].0@ != pre.entries@[ii].0@) by {
                                if p0 < ii {} else {}
                            }
                        } else if pre.has(q) && q != k {
                            let p = pre.position(q);
                            assert(p != ii);
                            let p1 = if p < ii { p } else { p - 1 };
                            assert(self.entries@[p1].0@ == q);
                        }
                    }
                    assert forall|q: Seq<char>| self.has(q) implies #[trigger] self.stored()[q] == pre.stored().remove(k)[q] by {
                        let p = self.position(q);
                        self.lemma_position(p);
                        let p0 = if p < ii { p } else { p + 1 };
                        assert(pre.entries@[p0] == self.entries@[p]);
                        pre.lemma_position(p0);
                    }
                    assert(self.stored() =~= pre.stored().remove(k));
                }
                Some(v)
            },
            None => {
                proof {
                    assert(self.stored() =~= pre.stored().remove(k));
                }
                None
            },
        }
    }
}

} // verus!
