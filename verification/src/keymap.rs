//! A map from byte-string keys to values.
use vstd::prelude::*;
use crate::bytes::{Cmp, compare_bytes, copy_bytes};
use crate::keyset::views;

verus! {

/// A map keyed by byte strings: each key occurs once.
pub struct ByteMap<V> {
    keys: Vec<Vec<u8>>,
    vals: Vec<V>,
}

impl<V> ByteMap<V> {
    /// Well-formedness: as many values as keys, and no key twice.
    pub closed spec fn wf(&self) -> bool {
        &&& self.keys@.len() == self.vals@.len()
        &&& forall|i: int, j: int|
            0 <= i < self.keys@.len() && 0 <= j < self.keys@.len() && i != j ==> (
            #[trigger] self.keys@[i])@ != (#[trigger] self.keys@[j])@
    }

    /// Index at which key `k` is stored.
    closed spec fn index_of(&self, k: Seq<u8>) -> int {
        choose|i: int| 0 <= i < self.keys@.len() && (#[trigger] self.keys@[i])@ == k
    }

    /// The map's contents.
    pub closed spec fn view(&self) -> Map<Seq<u8>, V> {
        Map::new(
            |k: Seq<u8>| views(self.keys@).contains(k),
            |k: Seq<u8>| self.vals@[self.index_of(k)],
        )
    }

    proof fn lemma_index(&self, i: int)
        requires
            self.wf(),
            0 <= i < self.keys@.len(),
        ensures
            self.view().contains_key(self.keys@[i]@),
            self.view()[self.keys@[i]@] == self.vals@[i],
            self.index_of(self.keys@[i]@) == i,
    {
        let k = self.keys@[i]@;
        assert(views(self.keys@)[i] == k);
        let j = self.index_of(k);
        assert(0 <= j < self.keys@.len() && self.keys@[j]@ == k);
    }

    proof fn lemma_absent(&self, k: Seq<u8>)
        requires
            forall|j: int| 0 <= j < self.keys@.len() ==> (#[trigger] self.keys@[j])@ != k,
        ensures
            !self.view().contains_key(k),
    {
        if views(self.keys@).contains(k) {
            let j = choose|j: int| 0 <= j < views(self.keys@).len() && views(self.keys@)[j] == k;
            assert(self.keys@[j]@ == k);
        }
    }

    /// The empty map.
    pub fn new() -> (m: Self)
        ensures
            m.wf(),
            m.view() == Map::<Seq<u8>, V>::empty(),
    {
        let m = ByteMap { keys: Vec::new(), vals: Vec::new() };
        assert(m.view() =~= Map::<Seq<u8>, V>::empty());
        m
    }

    /// Position of `k`, if present.
    fn find(&self, k: &[u8]) -> (r: Option<usize>)
        requires
            self.wf(),
        ensures
            r matches Some(i) ==> i < self.keys@.len() && self.keys@[i as int]@ == k@,
            r is None ==> forall|j: int| 0 <= j < self.keys@.len() ==> (#[trigger] self.keys@[j])@ != k@,
    {
        let mut i: usize = 0;
        while i < self.keys.len()
            invariant
                i <= self.keys@.len(),
                forall|j: int| 0 <= j < i ==> (#[trigger] self.keys@[j])@ != k@,
            decreases self.keys@.len() - i,
        {
            if compare_bytes(self.keys[i].as_slice(), k) == Cmp::Equal {
                return Some(i);
            }
            i = i + 1;
        }
        None
    }

    /// Whether `k` is a key.
    pub fn contains_key(&self, k: &[u8]) -> (r: bool)
        requires
            self.wf(),
        ensures
            r == self.view().contains_key(k@),
    {
        match self.find(k) {
            Some(i) => {
                proof {
                    self.lemma_index(i as int);
                }
                true
            },
            None => {
                proof {
                    self.lemma_absent(k@);
                }
                false
            },
        }
    }

    /// The value stored under `k`, if any.
    pub fn get(&self, k: &[u8]) -> (r: Option<&V>)
        requires
            self.wf(),
        ensures
            r is Some == self.view().contains_key(k@),
            r matches Some(v) ==> *v == self.view()[k@],
    {
        match self.find(k) {
            Some(i) => {
                proof {
                    self.lemma_index(i as int);
                }
                Some(&self.vals[i])
            },
            None => {
                proof {
                    self.lemma_absent(k@);
                }
                None
            },
        }
    }

    /// Stores `v` under `k`, replacing any earlier value.
    pub fn set(&mut self, k: &[u8], v: V)
        requires
            old(self).wf(),
        ensures
            final(self).wf(),
            final(self).view() == old(self).view().insert(k@, v),
    {
        let ghost pre = *self;
        match self.find(k) {
            Some(i) => {
                proof {
                    pre.lemma_index(i as int);
                }
                self.vals.set(i, v);
                proof {
                    assert(self.keys@ == pre.keys@);
                    assert forall|x: Seq<u8>| #[trigger] self.view().contains_key(x)
                        == pre.view().insert(k@, v).contains_key(x) by {}
                    assert forall|x: Seq<u8>| #[trigger] self.view().contains_key(x) implies self.view()[x]
                        == pre.view().insert(k@, v)[x] by {
                        let j = choose|j: int| 0 <= j < views(self.keys@).len() && views(self.keys@)[j] == x;
                        self.lemma_index(j);
                        pre.lemma_index(j);
                    }
                    assert(self.view() =~= pre.view().insert(k@, v));
                }
            },
            None => {
                let nk = copy_bytes(k);
                self.keys.push(nk);
                self.vals.push(v);
                proof {
                    let n = pre.keys@.len() as int;
                    assert forall|i: int, j: int|
                        0 <= i < self.keys@.len() && 0 <= j < self.keys@.len() && i != j implies (
                        #[trigger] self.keys@[i])@ != (#[trigger] self.keys@[j])@ by {
                        if i < n && j < n {
                            assert(self.keys@[i] == pre.keys@[i] && self.keys@[j] == pre.keys@[j]);
                        } else if i < n {
                            assert(self.keys@[i] == pre.keys@[i]);
                        } else {
                            assert(self.keys@[j] == pre.keys@[j]);
                        }
                    }
                    assert forall|x: Seq<u8>| #[trigger] self.view().contains_key(x)
                        == pre.view().insert(k@, v).contains_key(x) by {
                        if views(self.keys@).contains(x) {
                            let j = choose|j: int| 0 <= j < views(self.keys@).len() && views(self.keys@)[j] == x;
                            if j < n {
                                assert(views(pre.keys@)[j] == x);
                            }
                        }
                        if views(pre.keys@).contains(x) {
                            let j = choose|j: int| 0 <= j < views(pre.keys@).len() && views(pre.keys@)[j] == x;
                            assert(views(self.keys@)[j] == x);
                        }
                        if x == k@ {
                            assert(views(self.keys@)[n] == x);
                        }
                    }
                    assert forall|x: Seq<u8>| #[trigger] self.view().contains_key(x) implies self.view()[x]
                        == pre.view().insert(k@, v)[x] by {
                        let j = choose|j: int| 0 <= j < views(self.keys@).len() && views(self.keys@)[j] == x;
                        self.lemma_index(j);
                        if j < n {
                            assert(self.keys@[j] == pre.keys@[j]);
                            pre.lemma_index(j);
                        }
                    }
                    assert(self.view() =~= pre.view().insert(k@, v));
                }
            },
        }
    }
}

} // verus!
