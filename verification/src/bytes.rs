//! Byte strings: equality, the lexicographic order used by ordered maps
//! and sets, and small helpers for building byte strings.
use vstd::prelude::*;

verus! {

/// Result of comparing two byte strings.
#[derive(Clone, Copy, Debug, PartialEq, Eq, Structural)]
pub enum Cmp {
    Less,
    Equal,
    Greater,
}

/// `a` is strictly before `b` in lexicographic order, comparing from
/// position `i` on.
pub open spec fn lex_lt_from(a: Seq<u8>, b: Seq<u8>, i: nat) -> bool
    decreases a.len() - i,
{
    if i >= a.len() {
        i < b.len()
    } else if i >= b.len() {
        false
    } else if a[i as int] != b[i as int] {
        a[i as int] < b[i as int]
    } else {
        lex_lt_from(a, b, i + 1)
    }
}

/// Lexicographic order on byte strings (a proper prefix comes first).
pub open spec fn lex_lt(a: Seq<u8>, b: Seq<u8>) -> bool {
    lex_lt_from(a, b, 0)
}

/// No byte string is before itself.
pub proof fn lemma_lex_irreflexive(a: Seq<u8>, i: nat)
    ensures
        !lex_lt_from(a, a, i),
    decreases a.len() - i,
{
    if i < a.len() {
        lemma_lex_irreflexive(a, i + 1);
    }
}

/// The order is asymmetric.
pub proof fn lemma_lex_asymmetric(a: Seq<u8>, b: Seq<u8>, i: nat)
    ensures
        !(lex_lt_from(a, b, i) && lex_lt_from(b, a, i)),
    decreases a.len() - i,
{
    if i < a.len() && i < b.len() && a[i as int] == b[i as int] {
        lemma_lex_asymmetric(a, b, i + 1);
    }
}

/// The order is transitive.
pub proof fn lemma_lex_transitive(a: Seq<u8>, b: Seq<u8>, c: Seq<u8>, i: nat)
    requires
        lex_lt_from(a, b, i),
        lex_lt_from(b, c, i),
    ensures
        lex_lt_from(a, c, i),
    decreases a.len() - i,
{
    if i < a.len() && i < b.len() && i < c.len() && a[i as int] == b[i as int] && b[i as int]
        == c[i as int] {
        lemma_lex_transitive(a, b, c, i + 1);
    }
}

/// Two byte strings that agree before `i` and differ are ordered one way or
/// the other.
pub proof fn lemma_lex_total(a: Seq<u8>, b: Seq<u8>, i: nat)
    requires
        i <= a.len(),
        i <= b.len(),
        forall|j: int| 0 <= j < i ==> a[j] == b[j],
        a != b,
    ensures
        lex_lt_from(a, b, i) || lex_lt_from(b, a, i),
    decreases a.len() - i,
{
    if i < a.len() && i < b.len() && a[i as int] == b[i as int] {
        lemma_lex_total(a, b, i + 1);
    } else if i == a.len() && i == b.len() {
        assert(a =~= b);
    }
}

/// Ordered byte strings are different.
pub proof fn lemma_lex_lt_ne(a: Seq<u8>, b: Seq<u8>)
    requires
        lex_lt(a, b),
    ensures
        a != b,
{
    if a == b {
        lemma_lex_irreflexive(a, 0);
    }
}

/// Compares two byte strings lexicographically.
pub fn compare_bytes(a: &[u8], b: &[u8]) -> (r: Cmp)
    ensures
        r == Cmp::Less <==> lex_lt(a@, b@),
        r == Cmp::Equal <==> a@ == b@,
        r == Cmp::Greater <==> lex_lt(b@, a@),
{
    let mut i: usize = 0;
    while i < a.len() && i < b.len()
        invariant
            i <= a@.len(),
            i <= b@.len(),
            forall|j: int| 0 <= j < i ==> a@[j] == b@[j],
        decreases a@.len() - i,
    {
        if a[i] != b[i] {
            proof {
                lemma_lex_skip(a@, b@, i as nat);
                lemma_lex_skip(b@, a@, i as nat);
            }
            if a[i] < b[i] {
                return Cmp::Less;
            } else {
                return Cmp::Greater;
            }
        }
        i = i + 1;
    }
    proof {
        lemma_lex_skip(a@, b@, i as nat);
        lemma_lex_skip(b@, a@, i as nat);
    }
    if a.len() < b.len() {
        Cmp::Less
    } else if b.len() < a.len() {
        Cmp::Greater
    } else {
        assert(a@ =~= b@);
        proof {
            lemma_lex_irreflexive(a@, 0);
        }
        Cmp::Equal
    }
}

/// Comparing from the start equals comparing from `i` when the two strings
/// agree before `i`.
pub proof fn lemma_lex_skip(a: Seq<u8>, b: Seq<u8>, i: nat)
    requires
        i <= a.len(),
        i <= b.len(),
        forall|j: int| 0 <= j < i ==> a[j] == b[j],
    ensures
        lex_lt(a, b) == lex_lt_from(a, b, i),
    decreases i,
{
    if i > 0 {
        lemma_lex_skip(a, b, (i - 1) as nat);
        assert(lex_lt_from(a, b, (i - 1) as nat) == lex_lt_from(a, b, i));
    }
}

/// Byte-wise equality of two byte strings.
pub fn bytes_eq(a: &[u8], b: &[u8]) -> (r: bool)
    ensures
        r == (a@ == b@),
{
    if a.len() != b.len() {
        return false;
    }
    let mut i: usize = 0;
    while i < a.len()
        invariant
            a@.len() == b@.len(),
            i <= a@.len(),
            forall|j: int| 0 <= j < i ==> a@[j] == b@[j],
        decreases a@.len() - i,
    {
        if a[i] != b[i] {
            return false;
        }
        i = i + 1;
    }
    assert(a@ =~= b@);
    true
}

/// A fresh copy of a byte string.
pub fn copy_bytes(a: &[u8]) -> (r: Vec<u8>)
    ensures
        r@ == a@,
{
    vstd::slice::slice_to_vec(a)
}

/// Appends the bytes of `b` to `v`.
pub fn append_bytes(v: &mut Vec<u8>, b: &[u8])
    ensures
        final(v)@ == old(v)@ + b@,
{
    let mut i: usize = 0;
    let ghost start = v@;
    while i < b.len()
        invariant
            i <= b@.len(),
            v@ == start + b@.subrange(0, i as int),
        decreases b@.len() - i,
    {
        v.push(b[i]);
        i = i + 1;
        assert(v@ =~= start + b@.subrange(0, i as int));
    }
    assert(b@.subrange(0, b@.len() as int) =~= b@);
}

/// Equal sequences with equal heads have equal tails.
pub proof fn lemma_prefix_cancel<A>(h: Seq<A>, x: Seq<A>, y: Seq<A>)
    requires
        h + x == h + y,
    ensures
        x == y,
{
    assert(x =~= (h + x).subrange(h.len() as int, (h + x).len() as int));
    assert(y =~= (h + y).subrange(h.len() as int, (h + y).len() as int));
}

/// Equal concatenations whose first parts have the same length have equal
/// parts.
pub proof fn lemma_split_equal_len<A>(a: Seq<A>, x: Seq<A>, b: Seq<A>, y: Seq<A>)
    requires
        a + x == b + y,
        a.len() == b.len(),
    ensures
        a == b,
        x == y,
{
    assert(a =~= (a + x).subrange(0, a.len() as int));
    assert(b =~= (b + y).subrange(0, b.len() as int));
    assert(x =~= (a + x).subrange(a.len() as int, (a + x).len() as int));
    assert(y =~= (b + y).subrange(b.len() as int, (b + y).len() as int));
}

} // verus!
