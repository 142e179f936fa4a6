//! BLS12-381 public keys: which encodings the host accepts, and the
//! aggregate key of a signer set.
use vstd::prelude::*;
use crate::bytes::copy_bytes;
use crate::keyset::views;
use soroban_sdk::crypto::bls12_381::{Bls12381G1Affine, Bls12381G2Affine};
use soroban_sdk::BytesN;

verus! {

/// The BLS12-381 base field modulus.
pub open spec fn bls_field_modulus() -> int {
    4002409555221667393417789825735904156556882819939007885332058136124031650490837864442687629129015664037894272559787int
}

/// The number a big-endian byte string stands for.
pub open spec fn be_int(s: Seq<u8>) -> int
    decreases s.len(),
{
    if s.len() == 0 {
        0
    } else {
        be_int(s.drop_last()) * 256 + s.last()
    }
}

/// An uncompressed G1 point encoding that the host accepts for addition:
/// 96 bytes, either the point at infinity (flag byte `0x40`, all else zero)
/// or, with no flag set, coordinates `x || y` below the field modulus that
/// satisfy `y^2 = x^3 + 4`.
pub open spec fn g1_point(p: Seq<u8>) -> bool {
    &&& p.len() == 96
    &&& if p[0] >= 64 {
        p[0] == 64 && forall|i: int| 1 <= i < 96 ==> p[i] == 0
    } else {
        let x = be_int(p.subrange(0, 48));
        let y = be_int(p.subrange(48, 96));
        &&& p[0] < 32
        &&& x < bls_field_modulus()
        &&& y < bls_field_modulus()
        &&& (y * y - x * x * x - 4) % bls_field_modulus() == 0
    }
}

/// The sum of two G1 points, as the host computes it.
pub uninterp spec fn g1_sum(a: Seq<u8>, b: Seq<u8>) -> Seq<u8>;

/// Calls the host's `Bls12_381::g1_add` on two encoded G1 points. Claimed:
/// the result is their sum (the same points give the same sum, in either
/// order, as curve addition commutes and the encoding of a point is
/// unique), encoded as a G1 point again. The host traps on an encoding it does not accept,
/// which `requires` rules out.
#[verifier::external_body]
pub(crate) fn g1_add(e: &soroban_sdk::Env, a: &[u8], b: &[u8]) -> (r: Vec<u8>)
    requires
        g1_point(a@),
        g1_point(b@),
    ensures
        r@ == g1_sum(a@, b@),
        r@ == g1_sum(b@, a@),
        g1_point(r@),
{
    let pa = Bls12381G1Affine::from_bytes(BytesN::<96>::from_array(e, &a.try_into().unwrap()));
    let pb = Bls12381G1Affine::from_bytes(BytesN::<96>::from_array(e, &b.try_into().unwrap()));
    e.crypto().bls12_381().g1_add(&pa, &pb).to_bytes().to_array().to_vec()
}

/// An uncompressed G2 point encoding that the host accepts: 192 bytes,
/// either the point at infinity (flag byte `0x40`, all else zero) or, with
/// no flag set, coordinates `x = x0 + x1 u`, `y = y0 + y1 u` over
/// `Fp[u]/(u^2 + 1)`, laid out `x1 || x0 || y1 || y0`, each below the field
/// modulus, that satisfy `y^2 = x^3 + 4 (1 + u)`.
pub open spec fn g2_point(p: Seq<u8>) -> bool {
    &&& p.len() == 192
    &&& if p[0] >= 64 {
        p[0] == 64 && forall|i: int| 1 <= i < 192 ==> p[i] == 0
    } else {
        let x1 = be_int(p.subrange(0, 48));
        let x0 = be_int(p.subrange(48, 96));
        let y1 = be_int(p.subrange(96, 144));
        let y0 = be_int(p.subrange(144, 192));
        let q = bls_field_modulus();
        &&& p[0] < 32
        &&& x0 < q && x1 < q && y0 < q && y1 < q
        &&& (y0 * y0 - y1 * y1 - (x0 * x0 * x0 - 3 * x0 * x1 * x1) - 4) % q == 0
        &&& (2 * y0 * y1 - (3 * x0 * x0 * x1 - x1 * x1 * x1) - 4) % q == 0
    }
}

/// Whether a G1 point lies in the prime-order subgroup, as the host
/// decides it.
pub uninterp spec fn g1_in_subgroup(p: Seq<u8>) -> bool;

/// Whether a G2 point lies in the prime-order subgroup, as the host
/// decides it.
pub uninterp spec fn g2_in_subgroup(p: Seq<u8>) -> bool;

/// The G2 point the host hashes `msg` to under domain tag `dst`.
pub uninterp spec fn g2_hash(msg: Seq<u8>, dst: Seq<u8>) -> Seq<u8>;

/// Whether the product of the pairings of `g1s[i]` with `g2s[i]` is the
/// identity, as the host computes it.
pub uninterp spec fn pairing_holds(g1s: Seq<Seq<u8>>, g2s: Seq<Seq<u8>>) -> bool;

/// Calls the host's `Bls12_381::g1_is_in_subgroup`. Claimed: the answer is
/// a function of the point. The host traps on a point it cannot decode or
/// that is off the curve, which `requires` rules out.
#[verifier::external_body]
pub(crate) fn g1_is_in_subgroup(e: &soroban_sdk::Env, p: &[u8]) -> (r: bool)
    requires
        g1_point(p@),
    ensures
        r == g1_in_subgroup(p@),
{
    let pt = Bls12381G1Affine::from_bytes(BytesN::<96>::from_array(e, &p.try_into().unwrap()));
    e.crypto().bls12_381().g1_is_in_subgroup(&pt)
}

/// Calls the host's `Bls12_381::g2_is_in_subgroup`. Claimed: the answer is
/// a function of the point. The host traps on a point it cannot decode or
/// that is off the curve, which `requires` rules out.
#[verifier::external_body]
pub(crate) fn g2_is_in_subgroup(e: &soroban_sdk::Env, p: &[u8]) -> (r: bool)
    requires
        g2_point(p@),
    ensures
        r == g2_in_subgroup(p@),
{
    let pt = Bls12381G2Affine::from_bytes(BytesN::<192>::from_array(e, &p.try_into().unwrap()));
    e.crypto().bls12_381().g2_is_in_subgroup(&pt)
}

/// Calls the host's `Bls12_381::hash_to_g2`. Claimed: the result is a
/// function of the message and the tag, and, as the documentation says, a
/// point of G2 (encoded as one and in the subgroup). The host traps on an
/// empty tag or one longer than 255 bytes, which `requires` rules out.
#[verifier::external_body]
pub(crate) fn hash_to_g2(e: &soroban_sdk::Env, msg: &[u8], dst: &[u8]) -> (r: Vec<u8>)
    requires
        0 < dst@.len() <= 255,
    ensures
        r@ == g2_hash(msg@, dst@),
        g2_point(r@),
        g2_in_subgroup(r@),
{
    let m = soroban_sdk::Bytes::from_slice(e, msg);
    let d = soroban_sdk::Bytes::from_slice(e, dst);
    e.crypto().bls12_381().hash_to_g2(&m, &d).to_bytes().to_array().to_vec()
}

/// Calls the host's `Bls12_381::pairing_check` on the pairs `(g1s[i],
/// g2s[i])`. Claimed: the answer is a function of the points. The host
/// traps on lists of different or zero length and on a point it cannot
/// decode, off the curve or outside the subgroup, which `requires` rules
/// out.
#[verifier::external_body]
pub(crate) fn pairing_check(e: &soroban_sdk::Env, g1s: &Vec<Vec<u8>>, g2s: &Vec<Vec<u8>>) -> (r: bool)
    requires
        g1s@.len() == g2s@.len() > 0,
        forall|i: int| 0 <= i < g1s@.len() ==> g1_point(#[trigger] g1s@[i]@) && g1_in_subgroup(g1s@[i]@),
        forall|i: int| 0 <= i < g2s@.len() ==> g2_point(#[trigger] g2s@[i]@) && g2_in_subgroup(g2s@[i]@),
    ensures
        r == pairing_holds(views(g1s@), views(g2s@)),
{
    let mut a = soroban_sdk::Vec::new(e);
    for p in g1s.iter() {
        a.push_back(Bls12381G1Affine::from_bytes(BytesN::<96>::from_array(e, &p.as_slice().try_into().unwrap())));
    }
    let mut b = soroban_sdk::Vec::new(e);
    for p in g2s.iter() {
        b.push_back(Bls12381G2Affine::from_bytes(BytesN::<192>::from_array(e, &p.as_slice().try_into().unwrap())));
    }
    e.crypto().bls12_381().pairing_check(a, b)
}

/// The aggregate of a non-empty list of BLS public keys: the sum of the
/// keys, added from the first on.
pub open spec fn bls_aggregate(keys: Seq<Seq<u8>>) -> Seq<u8>
    decreases keys.len(),
{
    if keys.len() <= 1 {
        keys[0]
    } else {
        g1_sum(bls_aggregate(keys.drop_last()), keys.last())
    }
}

/// Every key of the list is an encoded G1 point.
pub open spec fn all_g1_points(keys: Seq<Seq<u8>>) -> bool {
    forall|i: int| 0 <= i < keys.len() ==> g1_point(#[trigger] keys[i])
}

/// Aggregates a non-empty list of BLS public keys: their sum, added from
/// the first key on. A single key is its own aggregate and is taken as it
/// is; several keys must be encoded G1 points, which the host adds.
pub fn read_agg_bls_key(e: &soroban_sdk::Env, keys: &Vec<Vec<u8>>) -> (r: Vec<u8>)
    requires
        keys@.len() > 0,
        keys@.len() > 1 ==> all_g1_points(views(keys@)),
    ensures
        r@ == bls_aggregate(views(keys@)),
        all_g1_points(views(keys@)) ==> g1_point(r@),
{
    let ghost ks = views(keys@);
    let mut agg = copy_bytes(keys[0].as_slice());
    proof {
        assert(ks.subrange(0, 1).len() == 1);
        assert(ks[0] == keys@[0]@);
    }
    let mut i: usize = 1;
    while i < keys.len()
        invariant
            1 <= i <= keys@.len(),
            ks == views(keys@),
            keys@.len() > 1 ==> all_g1_points(ks),
            agg@ == bls_aggregate(ks.subrange(0, i as int)),
            all_g1_points(ks) ==> g1_point(agg@),
        decreases keys@.len() - i,
    {
        assert(g1_point(ks[0]) && g1_point(ks[i as int]));
        assert(g1_point(agg@));
        let next = g1_add(e, agg.as_slice(), keys[i].as_slice());
        proof {
            let s = ks.subrange(0, i + 1);
            assert(s.drop_last() =~= ks.subrange(0, i as int));
            assert(s.last() == keys@[i as int]@);
        }
        agg = next;
        i = i + 1;
    }
    proof {
        assert(ks.subrange(0, i as int) =~= ks);
    }
    agg
}

/// The host's G1 addition obeys the group law on encoded points: sums of
/// points are points, and addition commutes and associates.
pub open spec fn g1_group_laws() -> bool {
    &&& forall|a: Seq<u8>, b: Seq<u8>| g1_point(a) && g1_point(b) ==> g1_point(#[trigger] g1_sum(a, b))
    &&& forall|a: Seq<u8>, b: Seq<u8>| g1_point(a) && g1_point(b) ==> #[trigger] g1_sum(a, b) == g1_sum(b, a)
    &&& forall|a: Seq<u8>, b: Seq<u8>, c: Seq<u8>|
        g1_point(a) && g1_point(b) && g1_point(c) ==> #[trigger] g1_sum(g1_sum(a, b), c) == g1_sum(a, g1_sum(b, c))
}

/// The aggregate of valid keys is a valid point.
proof fn lemma_aggregate_valid(keys: Seq<Seq<u8>>)
    requires
        g1_group_laws(),
        keys.len() > 0,
        all_g1_points(keys),
    ensures
        g1_point(bls_aggregate(keys)),
    decreases keys.len(),
{
    assert(g1_point(keys[0]));
    if keys.len() > 1 {
        let t = keys.drop_last();
        assert(all_g1_points(t)) by {
            assert forall|i: int| 0 <= i < t.len() implies g1_point(#[trigger] t[i]) by {
                assert(t[i] == keys[i]);
            }
        }
        lemma_aggregate_valid(t);
        assert(g1_point(keys.last()));
    }
}

/// Any key can be taken out of the aggregate and added last.
proof fn lemma_aggregate_remove(keys: Seq<Seq<u8>>, i: int)
    requires
        g1_group_laws(),
        keys.len() >= 2,
        0 <= i < keys.len(),
        all_g1_points(keys),
    ensures
        bls_aggregate(keys) == g1_sum(bls_aggregate(keys.remove(i)), keys[i]),
    decreases keys.len(),
{
    let n = keys.len();
    let t = keys.drop_last();
    let y = keys.last();
    assert(all_g1_points(t)) by {
        assert forall|j: int| 0 <= j < t.len() implies g1_point(#[trigger] t[j]) by {
            assert(t[j] == keys[j]);
        }
    }
    assert(g1_point(y));
    assert(bls_aggregate(keys) == g1_sum(bls_aggregate(t), y));
    if i == n - 1 {
        assert(keys.remove(i) =~= t);
    } else if t.len() == 1 {
        assert(i == 0);
        assert(keys.remove(0) =~= seq![y]);
        assert(bls_aggregate(seq![y]) == y);
        assert(bls_aggregate(t) == keys[0]);
        assert(g1_point(keys[0]));
        assert(g1_sum(keys[0], y) == g1_sum(y, keys[0]));
    } else {
        lemma_aggregate_remove(t, i);
        let tr = t.remove(i);
        assert(keys.remove(i) =~= tr.push(y));
        assert(keys.remove(i).drop_last() =~= tr);
        assert(keys.remove(i).last() == y);
        assert(bls_aggregate(keys.remove(i)) == g1_sum(bls_aggregate(tr), y));
        assert(all_g1_points(tr)) by {
            assert forall|j: int| 0 <= j < tr.len() implies g1_point(#[trigger] tr[j]) by {
                if j < i {
                    assert(tr[j] == t[j]);
                } else {
                    assert(tr[j] == t[j + 1]);
                }
            }
        }
        lemma_aggregate_valid(tr);
        let a = bls_aggregate(tr);
        let ti = t[i];
        assert(ti == keys[i]);
        assert(g1_point(ti));
        assert(g1_sum(g1_sum(a, ti), y) == g1_sum(a, g1_sum(ti, y)));
        assert(g1_sum(ti, y) == g1_sum(y, ti));
        assert(g1_sum(g1_sum(a, y), ti) == g1_sum(a, g1_sum(y, ti)));
        assert(bls_aggregate(t) == g1_sum(a, ti));
    }
}

/// The aggregate does not depend on the order of the keys: under the group
/// law of the host's addition, every ordering of the same keys gives the
/// same aggregate.
pub proof fn lemma_aggregate_order_independent(keys: Seq<Seq<u8>>, perm: Seq<Seq<u8>>)
    requires
        g1_group_laws(),
        keys.len() > 0,
        all_g1_points(keys),
        perm.to_multiset() == keys.to_multiset(),
    ensures
        bls_aggregate(perm) == bls_aggregate(keys),
    decreases keys.len(),
{
    broadcast use vstd::seq_lib::group_to_multiset_ensures;
    vstd::seq_lib::to_multiset_len(perm);
    vstd::seq_lib::to_multiset_len(keys);
    assert(perm.len() == keys.len());
    let x = perm.last();
    assert(perm.contains(x)) by {
        assert(perm[perm.len() - 1] == x);
    }
    assert(keys.to_multiset().count(x) > 0);
    assert(keys.contains(x));
    let i = choose|i: int| 0 <= i < keys.len() && keys[i] == x;
    if keys.len() == 1 {
        assert(keys[0] == x);
    } else {
        let kr = keys.remove(i);
        let pr = perm.drop_last();
        assert(pr =~= perm.remove(perm.len() - 1));
        assert(pr.to_multiset() == kr.to_multiset());
        assert(all_g1_points(kr)) by {
            assert forall|j: int| 0 <= j < kr.len() implies g1_point(#[trigger] kr[j]) by {
                if j < i {
                    assert(kr[j] == keys[j]);
                } else {
                    assert(kr[j] == keys[j + 1]);
                }
            }
        }
        lemma_aggregate_order_independent(kr, pr);
        lemma_aggregate_remove(keys, i);
    }
}

} // verus!
