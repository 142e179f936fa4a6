//! An ordered set of byte-string keys. Its keys are listed in ascending
//! lexicographic order, as the keys of an ordered contract map are.
use vstd::prelude::*;
use crate::bytes::{
    Cmp, compare_bytes, copy_bytes, lex_lt, lemma_lex_asymmetric, lemma_lex_irreflexive,
    lemma_lex_lt_ne, lemma_lex_total, lemma_lex_transitive,
};

verus! {

/// Keys in strictly ascending order.
pub open spec fn strictly_sorted(s: Seq<Seq<u8>>) -> bool {
    forall|i: int, j: int| 0 <= i < j < s.len() ==> lex_lt(#[trigger] s[i], #[trigger] s[j])
}

/// The contents of a sequence of byte vectors.
pub open spec fn views(v: Seq<Vec<u8>>) -> Seq<Seq<u8>> {
    Seq::new(v.len(), |i: int| v[i]@)
}

/// Inserting into a sequence inserts into its set of elements.
pub proof fn lemma_insert_to_set<A>(s: Seq<A>, i: int, x: A)
    requires
        0 <= i <= s.len(),
    ensures
        s.insert(i, x).to_set() == s.to_set().insert(x),
{
    s.insert_ensures(i, x);
    let n = s.insert(i, x);
    assert forall|y: A| #[trigger] n.to_set().contains(y) == s.to_set().insert(x).contains(y) by {
        if n.contains(y) {
            let j = choose|j: int| 0 <= j < n.len() && n[j] == y;
            if j < i {
                assert(s[j] == y);
            } else if j > i {
                assert(s[j - 1] == y);
            }
        }
        if s.contains(y) {
            let j = choose|j: int| 0 <= j < s.len() && s[j] == y;
            if j < i {
                assert(n[j] == y);
            } else {
                assert(n[j + 1] == y);
            }
        }
        if y == x {
            assert(n[i] == y);
        }
    }
    assert(n.to_set() =~= s.to_set().insert(x));
}

/// Removing the only occurrence of an element removes it from the set.
pub proof fn lemma_remove_to_set<A>(s: Seq<A>, i: int)
    requires
        0 <= i < s.len(),
        forall|j: int| 0 <= j < s.len() && j != i ==> s[j] != s[i],
    ensures
        s.remove(i).to_set() == s.to_set().remove(s[i]),
{
    s.remove_ensures(i);
    let n = s.remove(i);
    assert forall|y: A| #[trigger] n.to_set().contains(y) == s.to_set().remove(s[i]).contains(y) by {
        if n.contains(y) {
            let j = choose|j: int| 0 <= j < n.len() && n[j] == y;
            if j < i {
                assert(s[j] == y);
            } else {
                assert(s[j + 1] == y);
            }
        }
        if s.contains(y) && y != s[i] {
            let j = choose|j: int| 0 <= j < s.len() && s[j] == y;
            if j < i {
                assert(n[j] == y);
            } else {
                assert(n[j - 1] == y);
            }
        }
    }
    assert(n.to_set() =~= s.to_set().remove(s[i]));
}

/// A strictly ascending sequence repeats no element, so its set has as
/// many elements as the sequence.
pub proof fn lemma_sorted_set_len(s: Seq<Seq<u8>>)
    requires
        strictly_sorted(s),
    ensures
        s.no_duplicates(),
        s.to_set().finite(),
        s.to_set().len() == s.len(),
{
    assert forall|i: int, j: int| 0 <= i < s.len() && 0 <= j < s.len() && i != j implies s[i] != s[j] by {
        if i < j {
            lemma_lex_lt_ne(s[i], s[j]);
        } else {
            lemma_lex_lt_ne(s[j], s[i]);
        }
    }
    s.unique_seq_to_set();
    vstd::seq_lib::seq_to_set_is_finite(s);
}

/// Two strictly ascending sequences with the same elements are equal: the
/// order of a sorted listing is fixed by its set.
pub proof fn lemma_sorted_same_set(s1: Seq<Seq<u8>>, s2: Seq<Seq<u8>>)
    requires
        strictly_sorted(s1),
        strictly_sorted(s2),
        s1.to_set() == s2.to_set(),
    ensures
        s1 == s2,
    decreases s1.len(),
{
    if s1.len() == 0 {
        if s2.len() > 0 {
            assert(s2.to_set().contains(s2[0]));
        }
        assert(s1 =~= s2);
    } else {
        assert(s1.to_set().contains(s1[0]));
        assert(s2.len() > 0);
        let a = s1[0];
        let b = s2[0];
        assert(s2.to_set().contains(b));
        let j = choose|j: int| 0 <= j < s2.len() && s2[j] == a;
        let i = choose|i: int| 0 <= i < s1.len() && s1[i] == b;
        if a != b {
            assert(j > 0 && i > 0);
            assert(lex_lt(b, a));
            assert(lex_lt(a, b));
            lemma_lex_asymmetric(a, b, 0);
        }
        let t1 = s1.drop_first();
        let t2 = s2.drop_first();
        assert forall|x: Seq<u8>| #[trigger] t1.to_set().contains(x) == t2.to_set().contains(x) by {
            if t1.contains(x) {
                let k = choose|k: int| 0 <= k < t1.len() && t1[k] == x;
                assert(s1[k + 1] == x);
                assert(lex_lt(a, x));
                lemma_lex_lt_ne(a, x);
                assert(s2.to_set().contains(x));
                let m = choose|m: int| 0 <= m < s2.len() && s2[m] == x;
                assert(m != 0);
                assert(t2[m - 1] == x);
            }
            if t2.contains(x) {
                let k = choose|k: int| 0 <= k < t2.len() && t2[k] == x;
                assert(s2[k + 1] == x);
                assert(lex_lt(b, x));
                lemma_lex_lt_ne(b, x);
                assert(s1.to_set().contains(x));
                let m = choose|m: int| 0 <= m < s1.len() && s1[m] == x;
                assert(m != 0);
                assert(t1[m - 1] == x);
            }
        }
        assert(t1.to_set() =~= t2.to_set());
        assert(strictly_sorted(t1)) by {
            assert forall|p: int, q: int| 0 <= p < q < t1.len() implies lex_lt(#[trigger] t1[p], #[trigger] t1[q]) by {
                assert(t1[p] == s1[p + 1] && t1[q] == s1[q + 1]);
            }
        }
        assert(strictly_sorted(t2)) by {
            assert forall|p: int, q: int| 0 <= p < q < t2.len() implies lex_lt(#[trigger] t2[p], #[trigger] t2[q]) by {
                assert(t2[p] == s2[p + 1] && t2[q] == s2[q + 1]);
            }
        }
        lemma_sorted_same_set(t1, t2);
        assert(s1 =~= s2) by {
            assert forall|k: int| 0 <= k < s1.len() implies s1[k] == s2[k] by {
                if k > 0 {
                    assert(s1[k] == t1[k - 1]);
                    assert(s2[k] == t2[k - 1]);
                }
            }
        }
    }
}

/// A set of byte strings kept in ascending order.
pub struct ByteSet {
    keys: Vec<Vec<u8>>,
}

impl ByteSet {
    /// The keys, in ascending order.
    pub closed spec fn key_seq(&self) -> Seq<Seq<u8>> {
        views(self.keys@)
    }

    /// The set of keys.
    pub open spec fn key_set(&self) -> Set<Seq<u8>> {
        self.key_seq().to_set()
    }

    /// Well-formedness: keys strictly ascending.
    pub open spec fn wf(&self) -> bool {
        strictly_sorted(self.key_seq())
    }

    /// Membership.
    pub open spec fn has(&self, k: Seq<u8>) -> bool {
        self.key_seq().contains(k)
    }

    /// The empty set.
    pub fn new() -> (s: Self)
        ensures
            s.wf(),
            s.key_seq() == Seq::<Seq<u8>>::empty(),
    {
        let s = ByteSet { keys: Vec::new() };
        assert(s.key_seq() =~= Seq::<Seq<u8>>::empty());
        s
    }

    /// Number of keys.
    pub fn len(&self) -> (n: usize)
        ensures
            n == self.key_seq().len(),
    {
        self.keys.len()
    }

    /// Whether `k` is in the set.
    pub fn contains(&self, k: &[u8]) -> (r: bool)
        ensures
            r == self.has(k@),
    {
        let mut i: usize = 0;
        while i < self.keys.len()
            invariant
                i <= self.keys@.len(),
                forall|j: int| 0 <= j < i ==> self.key_seq()[j] != k@,
            decreases self.keys@.len() - i,
        {
            if compare_bytes(self.keys[i].as_slice(), k) == Cmp::Equal {
                assert(self.key_seq()[i as int] == k@);
                return true;
            }
            i = i + 1;
        }
        assert forall|j: int| 0 <= j < self.key_seq().len() implies self.key_seq()[j] != k@ by {}
        false
    }

    /// The keys in ascending order.
    pub fn keys(&self) -> (r: Vec<Vec<u8>>)
        ensures
            views(r@) == self.key_seq(),
    {
        let mut out: Vec<Vec<u8>> = Vec::new();
        let mut i: usize = 0;
        while i < self.keys.len()
            invariant
                i <= self.keys@.len(),
                out@.len() == i,
                forall|j: int| 0 <= j < i ==> (#[trigger] out@[j])@ == self.keys@[j]@,
            decreases self.keys@.len() - i,
        {
            let k = copy_bytes(self.keys[i].as_slice());
            out.push(k);
            i = i + 1;
        }
        assert(views(out@) =~= self.key_seq());
        out
    }

    /// Adds `k`. Returns `false`, with the set unchanged, where `k` was
    /// already present.
    pub fn insert(&mut self, k: &[u8]) -> (added: bool)
        requires
            old(self).wf(),
        ensures
            final(self).wf(),
            added == !old(self).has(k@),
            final(self).key_set() == old(self).key_set().insert(k@),
            !added ==> *final(self) == *old(self),
            added ==> final(self).key_seq().len() == old(self).key_seq().len() + 1,
    {
        let ghost ks = self.key_seq();
        let mut i: usize = 0;
        let mut above = false;
        while !above && i < self.keys.len()
            invariant
                i <= self.keys@.len(),
                ks == self.key_seq(),
                ks == old(self).key_seq(),
                *self == *old(self),
                strictly_sorted(ks),
                forall|j: int| 0 <= j < i ==> lex_lt(#[trigger] ks[j], k@),
                above ==> i < ks.len() && lex_lt(k@, ks[i as int]),
            decreases self.keys@.len() - i, if above { 0int } else { 1int },
        {
            let c = compare_bytes(self.keys[i].as_slice(), k);
            if c == Cmp::Equal {
                assert(ks[i as int] == k@);
                assert(ks.to_set().insert(k@) =~= ks.to_set());
                return false;
            }
            if c == Cmp::Greater {
                above = true;
            } else {
                i = i + 1;
            }
        }
        // Every key before `i` is below `k`; every key from `i` on is above it.
        proof {
            assert forall|j: int| i <= j < ks.len() implies lex_lt(k@, #[trigger] ks[j]) by {
                if j > i {
                    lemma_lex_transitive(k@, ks[i as int], ks[j], 0);
                }
            }
            assert forall|j: int| 0 <= j < ks.len() implies ks[j] != k@ by {
                if j < i {
                    lemma_lex_lt_ne(ks[j], k@);
                } else {
                    lemma_lex_lt_ne(k@, ks[j]);
                }
            }
        }
        let nk = copy_bytes(k);
        self.keys.insert(i, nk);
        proof {
            let ns = self.key_seq();
            assert(ns =~= ks.insert(i as int, k@));
            assert forall|p: int, q: int| 0 <= p < q < ns.len() implies lex_lt(
                #[trigger] ns[p],
                #[trigger] ns[q],
            ) by {
                if p < i && q < i {
                    assert(ns[p] == ks[p] && ns[q] == ks[q]);
                } else if p < i && q == i {
                } else if p < i && q > i {
                    assert(ns[q] == ks[q - 1]);
                    lemma_lex_transitive(ks[p], k@, ks[q - 1], 0);
                } else if p == i {
                    assert(ns[q] == ks[q - 1]);
                } else {
                    assert(ns[p] == ks[p - 1] && ns[q] == ks[q - 1]);
                }
            }
            lemma_insert_to_set(ks, i as int, k@);
        }
        true
    }

    /// Removes `k`. Returns `false`, with the set unchanged, where `k` was
    /// absent.
    pub fn remove(&mut self, k: &[u8]) -> (removed: bool)
        requires
            old(self).wf(),
        ensures
            final(self).wf(),
            removed == old(self).has(k@),
            final(self).key_set() == old(self).key_set().remove(k@),
            !removed ==> *final(self) == *old(self),
            removed ==> final(self).key_seq().len() + 1 == old(self).key_seq().len(),
    {
        let ghost ks = self.key_seq();
        let mut i: usize = 0;
        while i < self.keys.len()
            invariant
                i <= self.keys@.len(),
                ks == self.key_seq(),
                ks == old(self).key_seq(),
                *self == *old(self),
                strictly_sorted(ks),
                forall|j: int| 0 <= j < i ==> ks[j] != k@,
            decreases self.keys@.len() - i,
        {
            if compare_bytes(self.keys[i].as_slice(), k) == Cmp::Equal {
                assert(ks[i as int] == k@);
                self.keys.remove(i);
                proof {
                    let ns = self.key_seq();
                    assert(ns =~= ks.remove(i as int));
                    assert forall|p: int, q: int| 0 <= p < q < ns.len() implies lex_lt(
                        #[trigger] ns[p],
                        #[trigger] ns[q],
                    ) by {
                        if q < i {
                            assert(ns[p] == ks[p] && ns[q] == ks[q]);
                        } else if p < i {
                            assert(ns[p] == ks[p] && ns[q] == ks[q + 1]);
                        } else {
                            assert(ns[p] == ks[p + 1] && ns[q] == ks[q + 1]);
                        }
                    }
                    assert forall|j: int| 0 <= j < ks.len() && j != i implies ks[j] != k@ by {
                        if j < i {
                            lemma_lex_lt_ne(ks[j], ks[i as int]);
                        } else {
                            lemma_lex_lt_ne(ks[i as int], ks[j]);
                        }
                    }
                    lemma_remove_to_set(ks, i as int);
                }
                return true;
            }
            i = i + 1;
        }
        assert(ks.to_set().remove(k@) =~= ks.to_set());
        false
    }
}

} // verus!
