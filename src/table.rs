use vstd::prelude::*;

verus! {

/// A finite map from string keys to values, kept in insertion order.
///
/// Keys are pairwise distinct; the abstract view is a `Map` from the key's
/// characters to its value.
pub struct Table<V> {
    keys: Vec<String>,
    vals: Vec<V>,
}

/// The position of key `k` among `keys`, when it occurs.
pub open spec fn has_key_at(keys: Seq<String>, k: Seq<char>, i: int) -> bool {
    0 <= i < keys.len() && keys[i]@ == k
}

impl<V> Table<V> {
    /// Keys and values pair up, and no key occurs twice.
    pub closed spec fn wf(&self) -> bool {
        &&& self.keys.len() == self.vals.len()
        &&& forall|i: int, j: int|
            0 <= i < self.keys.len() && 0 <= j < self.keys.len() && i != j
                ==> #[trigger] self.keys@[i]@ != #[trigger] self.keys@[j]@
    }

    spec fn holds(&self, k: Seq<char>) -> bool {
        exists|i: int| has_key_at(self.keys@, k, i)
    }

    spec fn slot(&self, k: Seq<char>) -> int {
        choose|i: int| has_key_at(self.keys@, k, i)
    }

    /// The keys in the order in which they were first inserted.
    pub closed spec fn key_seq(&self) -> Seq<Seq<char>> {
        self.keys@.map_values(|s: String| s@)
    }

    proof fn lemma_slot(&self, k: Seq<char>, i: int)
        requires
            self.wf(),
            has_key_at(self.keys@, k, i),
        ensures
            self.holds(k),
            self.slot(k) == i,
    {
        let j = self.slot(k);
        assert(has_key_at(self.keys@, k, j));
        if i != j {
            assert(self.keys@[i]@ != self.keys@[j]@);
        }
    }

    /// An empty table.
    pub fn new() -> (t: Self)
        ensures
            t.wf(),
            t@ == Map::<Seq<char>, V>::empty(),
            t.key_seq() == Seq::<Seq<char>>::empty(),
    {
        let t = Table { keys: Vec::new(), vals: Vec::new() };
        assert(t@ =~= Map::<Seq<char>, V>::empty());
        assert(t.key_seq() =~= Seq::<Seq<char>>::empty());
        t
    }

    /// The number of keys.
    pub fn len(&self) -> (n: usize)
        requires
            self.wf(),
        ensures
            n == self@.len(),
            n == self.key_seq().len(),
    {
        proof {
            self.lemma_dom_finite();
        }
        self.keys.len()
    }

    proof fn lemma_dom_finite(&self)
        requires
            self.wf(),
        ensures
            self@.dom() == self.key_seq().to_set(),
            self@.dom().finite(),
            self@.len() == self.key_seq().len(),
    {
        assert forall|k: Seq<char>| self@.dom().contains(k) <==> self.key_seq().to_set().contains(
            k,
        ) by {
            if self@.dom().contains(k) {
                let i = self.slot(k);
                assert(self.key_seq()[i] == k);
            }
            if self.key_seq().to_set().contains(k) {
                let i = choose|i: int| 0 <= i < self.key_seq().len() && self.key_seq()[i] == k;
                assert(has_key_at(self.keys@, k, i));
            }
        }
        assert(self@.dom() =~= self.key_seq().to_set());
        assert forall|i: int, j: int|
            0 <= i < self.key_seq().len() && 0 <= j < self.key_seq().len() && i != j
                implies self.key_seq()[i] != self.key_seq()[j] by {
            assert(self.keys@[i]@ != self.keys@[j]@);
        }
        assert(self.key_seq().no_duplicates());
        self.key_seq().unique_seq_to_set();
    }

    fn find(&self, k: &String) -> (r: Option<usize>)
        requires
            self.wf(),
        ensures
            match r {
                Some(i) => has_key_at(self.keys@, k@, i as int),
                None => !self@.contains_key(k@),
            },
    {
        let mut i: usize = 0;
        while i < self.keys.len()
            invariant
                i <= self.keys.len(),
                forall|j: int| 0 <= j < i ==> self.keys@[j]@ != k@,
            decreases self.keys.len() - i,
        {
            if self.keys[i] == *k {
                return Some(i);
            }
            i = i + 1;
        }
        None
    }

    /// Whether `k` has a value.
    pub fn contains_key(&self, k: &String) -> (r: bool)
        requires
            self.wf(),
        ensures
            r == self@.contains_key(k@),
    {
        match self.find(k) {
            Some(i) => {
                proof {
                    self.lemma_slot(k@, i as int);
                }
                true
            },
            None => false,
        }
    }

    /// The value of `k`, when it has one.
    pub fn get(&self, k: &String) -> (r: Option<&V>)
        requires
            self.wf(),
        ensures
            match r {
                Some(v) => self@.contains_key(k@) && *v == self@[k@],
                None => !self@.contains_key(k@),
            },
    {
        match self.find(k) {
            Some(i) => {
                proof {
                    self.lemma_slot(k@, i as int);
                }
                Some(&self.vals[i])
            },
            None => None,
        }
    }

    /// Gives `k` the value `v`, replacing any earlier one. A new key goes last.
    pub fn insert(&mut self, k: String, v: V)
        requires
            old(self).wf(),
        ensures
            final(self).wf(),
            final(self)@ == old(self)@.insert(k@, v),
            old(self)@.contains_key(k@) ==> final(self).key_seq() == old(self).key_seq(),
            !old(self)@.contains_key(k@) ==> final(self).key_seq() == old(self).key_seq().push(
                k@,
            ),
    {
        let ghost before = *self;
        match self.find(&k) {
            Some(i) => {
                proof {
                    before.lemma_slot(k@, i as int);
                }
                self.vals.set(i, v);
                proof {
                    assert(self.keys@ == before.keys@);
                    assert forall|q: Seq<char>| #[trigger]
                        self@.contains_key(q) <==> before@.insert(k@, v).contains_key(q) by {
                        if self.holds(q) {
                            let j = self.slot(q);
                            assert(has_key_at(before.keys@, q, j));
                        }
                    }
                    assert forall|q: Seq<char>| self@.contains_key(q) implies #[trigger] self@[q]
                        == before@.insert(k@, v)[q] by {
                        let j = self.slot(q);
                        assert(has_key_at(before.keys@, q, j));
                        before.lemma_slot(q, j);
                    }
                    assert(self@ =~= before@.insert(k@, v));
                    assert(self.key_seq() =~= before.key_seq());
                }
            },
            None => {
                let ghost n = self.keys.len() as int;
                self.keys.push(k);
                self.vals.push(v);
                proof {
                    assert(has_key_at(self.keys@, k@, n));
                    assert forall|j: int| 0 <= j < n implies before.keys@[j]@ != k@ by {
                        if before.keys@[j]@ == k@ {
                            assert(has_key_at(before.keys@, k@, j));
                        }
                    }
                    assert forall|i: int, j: int|
                        0 <= i < self.keys.len() && 0 <= j < self.keys.len() && i != j
                            implies #[trigger] self.keys@[i]@ != #[trigger] self.keys@[j]@ by {
                        if i < n && j < n {
                            assert(before.keys@[i]@ != before.keys@[j]@);
                        }
                    }
                    assert forall|q: Seq<char>| #[trigger]
                        self@.contains_key(q) <==> before@.insert(k@, v).contains_key(q) by {
                        if self.holds(q) {
                            let j = self.slot(q);
                            if j < n {
                                assert(has_key_at(before.keys@, q, j));
                            }
                        }
                        if before.holds(q) {
                            let j = before.slot(q);
                            assert(has_key_at(self.keys@, q, j));
                        }
                    }
                    assert forall|q: Seq<char>| self@.contains_key(q) implies #[trigger] self@[q]
                        == before@.insert(k@, v)[q] by {
                        let j = self.slot(q);
                        if q == k@ {
                            assert(j == n) by {
                                if j != n {
                                    assert(has_key_at(before.keys@, k@, j));
                                }
                            }
                        } else {
                            assert(j < n);
                            assert(has_key_at(before.keys@, q, j));
                            before.lemma_slot(q, j);
                        }
                    }
                    assert(self@ =~= before@.insert(k@, v));
                    assert(self.key_seq() =~= before.key_seq().push(k@));
                }
            },
        }
    }
}

impl<V> View for Table<V> {
    type V = Map<Seq<char>, V>;

    closed spec fn view(&self) -> Map<Seq<char>, V> {
        Map::new(|k: Seq<char>| self.holds(k), |k: Seq<char>| self.vals@[self.slot(k)])
    }
}

} // verus!
