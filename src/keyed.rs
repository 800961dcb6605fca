use vstd::prelude::*;

verus! {

/// A value that can be copied into a fresh value with the same view.
pub trait Duplicate: View + Sized {
    spec fn inv(&self) -> bool;

    fn duplicate(&self) -> (r: Self)
        requires
            self.inv(),
        ensures
            r.inv(),
            r@ == self@,
    ;
}

/// A key of a `KeyedVec`: comparable in executable code by its view.
pub trait MapKey: Duplicate {
    fn same_key(&self, other: &Self) -> (r: bool)
        ensures
            r == (self@ == other@),
    ;
}

impl Duplicate for Vec<u8> {
    open spec fn inv(&self) -> bool {
        true
    }

    fn duplicate(&self) -> (r: Vec<u8>) {
        let mut r: Vec<u8> = Vec::new();
        let mut i: usize = 0;
        while i < self.len()
            invariant
                i <= self@.len(),
                r@ == self@.subrange(0, i as int),
            decreases self@.len() - i,
        {
            r.push(self[i]);
            i = i + 1;
            proof {
                assert(r@ =~= self@.subrange(0, i as int));
            }
        }
        proof {
            assert(r@ =~= self@);
        }
        r
    }
}

impl MapKey for Vec<u8> {
    fn same_key(&self, other: &Vec<u8>) -> (r: bool) {
        bytes_equal(self, other)
    }
}

impl Duplicate for u64 {
    open spec fn inv(&self) -> bool {
        true
    }

    fn duplicate(&self) -> (r: u64) {
        *self
    }
}

impl MapKey for u64 {
    fn same_key(&self, other: &u64) -> (r: bool) {
        *self == *other
    }
}

/// Compares two byte strings.
pub fn bytes_equal(a: &Vec<u8>, b: &Vec<u8>) -> (r: bool)
    ensures
        r == (a@ == b@),
{
    if a.len() != b.len() {
        return false;
    }
    let mut i: usize = 0;
    while i < a.len()
        invariant
            a@.len() == b@.len(),
            i <= a@.len(),
            forall|j: int| 0 <= j < i ==> a@[j] == b@[j],
        decreases a@.len() - i,
    {
        if a[i] != b[i] {
            return false;
        }
        i = i + 1;
    }
    proof {
        assert(a@ =~= b@);
    }
    true
}

/// A finite map stored as two parallel vectors, with pairwise distinct keys.
pub struct KeyedVec<K: MapKey, V: Duplicate> {
    keys: Vec<K>,
    vals: Vec<V>,
}

impl<K: MapKey, V: Duplicate> KeyedVec<K, V> {
    pub closed spec fn wf(&self) -> bool {
        &&& self.keys@.len() == self.vals@.len()
        &&& forall|i: int| 0 <= i < self.vals@.len() ==> (#[trigger] self.vals@[i]).inv()
        &&& forall|i: int| 0 <= i < self.keys@.len() ==> (#[trigger] self.keys@[i]).inv()
        &&& forall|i: int, j: int|
            0 <= i < j < self.keys@.len() ==> self.keys@[i]@ != self.keys@[j]@
    }

    closed spec fn has(&self, k: K::V) -> bool {
        exists|i: int| 0 <= i < self.keys@.len() && self.keys@[i]@ == k
    }

    closed spec fn index_of(&self, k: K::V) -> int {
        choose|i: int| 0 <= i < self.keys@.len() && self.keys@[i]@ == k
    }

    proof fn lemma_index_of(&self, i: int)
        requires
            self.wf(),
            0 <= i < self.keys@.len(),
        ensures
            self.has(self.keys@[i]@),
            self.index_of(self.keys@[i]@) == i,
    {
        let k = self.keys@[i]@;
        assert(0 <= i < self.keys@.len() && self.keys@[i]@ == k);
        let j = self.index_of(k);
        if j != i {
            if j < i {
                assert(self.keys@[j]@ != self.keys@[i]@);
            } else {
                assert(self.keys@[i]@ != self.keys@[j]@);
            }
        }
    }

    pub fn new() -> (r: Self)
        ensures
            r.wf(),
            r@ == Map::<K::V, V::V>::empty(),
    {
        let r = KeyedVec { keys: Vec::new(), vals: Vec::new() };
        assert(r@ =~= Map::<K::V, V::V>::empty());
        r
    }

    /// Position of `k` among the keys, if present.
    fn find(&self, k: &K) -> (r: Option<usize>)
        requires
            self.wf(),
        ensures
            match r {
                Some(i) => i < self.keys@.len() && self.keys@[i as int]@ == k@,
                None => !self.has(k@),
            },
    {
        let mut i: usize = 0;
        while i < self.keys.len()
            invariant
                i <= self.keys@.len(),
                forall|j: int| 0 <= j < i ==> self.keys@[j]@ != k@,
            decreases self.keys@.len() - i,
        {
            if self.keys[i].same_key(k) {
                return Some(i);
            }
            i = i + 1;
        }
        None
    }

    pub fn contains(&self, k: &K) -> (r: bool)
        requires
            self.wf(),
        ensures
            r == self@.contains_key(k@),
    {
        self.find(k).is_some()
    }

    pub fn get(&self, k: &K) -> (r: Option<&V>)
        requires
            self.wf(),
        ensures
            match r {
                Some(v) => self@.contains_key(k@) && v@ == self@[k@] && v.inv(),
                None => !self@.contains_key(k@),
            },
    {
        match self.find(k) {
            Some(i) => {
                proof {
                    self.lemma_index_of(i as int);
                }
                Some(&self.vals[i])
            },
            None => None,
        }
    }

    /// Inserts or replaces the value under `k`.
    pub fn insert(&mut self, k: K, v: V)
        requires
            old(self).wf(),
            k.inv(),
            v.inv(),
        ensures
            final(self).wf(),
            final(self)@ == old(self)@.insert(k@, v@),
    {
        let ghost pre = *self;
        match self.find(&k) {
            Some(i) => {
                self.vals.set(i, v);
                proof {
                    let post = *self;
                    assert forall|q: K::V| #[trigger] post.has(q) == pre.has(q) by {
                        if pre.has(q) {
                            let j = pre.index_of(q);
                            assert(post.keys@[j]@ == q);
                        }
                    }
                    assert forall|q: K::V| post.has(q) implies post.vals@[post.index_of(q)]@
                        == (if q == k@ { v@ } else { pre.vals@[pre.index_of(q)]@ }) by {
                        let j = post.index_of(q);
                        post.lemma_index_of(j);
                        pre.lemma_index_of(j);
                    }
                    assert(post@ =~= pre@.insert(k@, v@));
                }
            },
            None => {
                self.keys.push(k);
                self.vals.push(v);
                proof {
                    let post = *self;
                    let n = pre.keys@.len() as int;
                    assert(post.keys@[n]@ == k@);
                    assert forall|i: int, j: int|
                        0 <= i < j < post.keys@.len() implies post.keys@[i]@
                        != post.keys@[j]@ by {
                        if j == n {
                            assert(pre.keys@[i]@ != k@);
                        } else {
                            assert(pre.keys@[i]@ != pre.keys@[j]@);
                        }
                    }
                    assert forall|q: K::V| #[trigger] post.has(q) == (pre.has(q) || q == k@) by {
                        if pre.has(q) {
                            let j = pre.index_of(q);
                            assert(post.keys@[j]@ == q);
                        }
                        if q == k@ {
                            assert(post.keys@[n]@ == q);
                        }
                        if post.has(q) && q != k@ {
                            let j = post.index_of(q);
                            assert(pre.keys@[j]@ == q);
                        }
                    }
                    assert forall|q: K::V| post.has(q) implies post.vals@[post.index_of(q)]@
                        == (if q == k@ { v@ } else { pre.vals@[pre.index_of(q)]@ }) by {
                        let j = post.index_of(q);
                        post.lemma_index_of(j);
                        if j < n {
                            pre.lemma_index_of(j);
                        }
                    }
                    assert(post@ =~= pre@.insert(k@, v@));
                }
            },
        }
    }

    /// Removes the entry under `k` and hands back its value.
    pub fn take(&mut self, k: &K) -> (r: Option<V>)
        requires
            old(self).wf(),
        ensures
            final(self).wf(),
            final(self)@ == old(self)@.remove(k@),
            match r {
                Some(v) => old(self)@.contains_key(k@) && v@ == old(self)@[k@] && v.inv(),
                None => !old(self)@.contains_key(k@),
            },
    {
        let ghost pre = *self;
        match self.find(k) {
            Some(i) => {
                proof {
                    pre.lemma_index_of(i as int);
                }
                self.keys.remove(i);
                let v = self.vals.remove(i);
                proof {
                    let post = *self;
                    let sh = |j: int| if j < i { j } else { j + 1 };
                    assert forall|a: int, b: int|
                        0 <= a < b < post.keys@.len() implies post.keys@[a]@
                        != post.keys@[b]@ by {
                        assert(post.keys@[a] == pre.keys@[sh(a)]);
                        assert(post.keys@[b] == pre.keys@[sh(b)]);
                    }
                    assert forall|q: K::V| #[trigger] post.has(q) == (pre.has(q) && q != k@) by {
                        if post.has(q) {
                            let j = post.index_of(q);
                            assert(post.keys@[j] == pre.keys@[sh(j)]);
                            assert(pre.keys@[sh(j)]@ == q);
                            if q == k@ {
                                assert(pre.keys@[sh(j)]@ == pre.keys@[i as int]@);
                                if sh(j) < i {
                                    assert(pre.keys@[sh(j)]@ != pre.keys@[i as int]@);
                                } else {
                                    assert(pre.keys@[i as int]@ != pre.keys@[sh(j)]@);
                                }
                            }
                        }
                        if pre.has(q) && q != k@ {
                            let j = pre.index_of(q);
                            if j < i {
                                assert(post.keys@[j] == pre.keys@[j]);
                            } else {
                                assert(j != i);
                                assert(post.keys@[j - 1] == pre.keys@[j]);
                            }
                        }
                    }
                    assert forall|q: K::V| post.has(q) implies post.vals@[post.index_of(q)]@
                        == pre.vals@[pre.index_of(q)]@ by {
                        let j = post.index_of(q);
                        post.lemma_index_of(j);
                        assert(post.keys@[j] == pre.keys@[sh(j)]);
                        assert(post.vals@[j] == pre.vals@[sh(j)]);
                        pre.lemma_index_of(sh(j));
                    }
                    assert(post@ =~= pre@.remove(k@));
                }
                Some(v)
            },
            None => {
                proof {
                    assert(pre@ =~= pre@.remove(k@));
                }
                None
            },
        }
    }

    /// A copy with the same contents.
    pub fn duplicate_map(&self) -> (r: Self)
        requires
            self.wf(),
        ensures
            r.wf(),
            r@ == self@,
    {
        let mut keys: Vec<K> = Vec::new();
        let mut vals: Vec<V> = Vec::new();
        let mut i: usize = 0;
        while i < self.keys.len()
            invariant
                self.wf(),
                i <= self.keys@.len(),
                keys@.len() == i,
                vals@.len() == i,
                forall|j: int| 0 <= j < i ==> keys@[j]@ == self.keys@[j]@,
                forall|j: int| 0 <= j < i ==> vals@[j]@ == self.vals@[j]@,
                forall|j: int| 0 <= j < i ==> (#[trigger] vals@[j]).inv(),
                forall|j: int| 0 <= j < i ==> (#[trigger] keys@[j]).inv(),
            decreases self.keys@.len() - i,
        {
            keys.push(self.keys[i].duplicate());
            vals.push(self.vals[i].duplicate());
            i = i + 1;
        }
        let r = KeyedVec { keys, vals };
        proof {
            assert forall|q: K::V| #[trigger] r.has(q) == self.has(q) by {
                if r.has(q) {
                    let j = r.index_of(q);
                    assert(self.keys@[j]@ == q);
                }
                if self.has(q) {
                    let j = self.index_of(q);
                    assert(r.keys@[j]@ == q);
                }
            }
            assert forall|q: K::V| r.has(q) implies r.vals@[r.index_of(q)]@
                == self.vals@[self.index_of(q)]@ by {
                let j = r.index_of(q);
                r.lemma_index_of(j);
                self.lemma_index_of(j);
            }
            assert(r@ =~= self@);
        }
        r
    }
}

impl<K: MapKey, V: Duplicate> View for KeyedVec<K, V> {
    type V = Map<K::V, V::V>;

    closed spec fn view(&self) -> Map<K::V, V::V> {
        Map::new(|k: K::V| self.has(k), |k: K::V| self.vals@[self.index_of(k)]@)
    }
}

} // verus!
