//! Wallet deployment: the deployment salt commits to the passkey and to the
//! aggregate of the wallet's BLS keys, and each key proves possession by
//! signing that salt.
use vstd::prelude::*;
use crate::bytes::copy_bytes;
use crate::bls::{
    all_g1_points, g1_group_laws, lemma_aggregate_order_independent, bls_aggregate, g1_in_subgroup, g1_is_in_subgroup, g1_point, g2_hash, g2_in_subgroup,
    g2_is_in_subgroup, g2_point, hash_to_g2, pairing_check, pairing_holds, read_agg_bls_key,
};
use crate::host::{sha256, sha256_digest};
use crate::keyset::views;
use crate::xdr::{push_xdr_bytes, xdr_bytes};

verus! {

/// Errors of wallet deployment.
#[derive(Clone, Copy, Debug, PartialEq, Eq, Structural)]
pub enum FactoryError {
    MissingBlsKeys,
    InvalidPoPSignature,
}

/// A 96-byte BLS public key with its 192-byte proof-of-possession
/// signature over the deployment salt.
pub struct BlsKeyWithProof {
    pub key: Vec<u8>,
    pub sig: Vec<u8>,
}

/// The keys of a list of keys with proofs.
pub open spec fn pop_keys(pops: Seq<BlsKeyWithProof>) -> Seq<Seq<u8>> {
    Seq::new(pops.len(), |i: int| pops[i].key@)
}

/// The bytes hashed into the deployment salt: the XDR of the passkey and of
/// the aggregate BLS key.
pub open spec fn pop_salt_preimage(passkey: Seq<u8>, agg: Seq<u8>) -> Seq<u8> {
    xdr_bytes(passkey) + xdr_bytes(agg)
}

/// The BLS keys of `bls_keys_pop`, in order.
pub fn extract_bls_keys(bls_keys_pop: &Vec<BlsKeyWithProof>) -> (r: Vec<Vec<u8>>)
    ensures
        views(r@) == pop_keys(bls_keys_pop@),
{
    let mut bls_keys: Vec<Vec<u8>> = Vec::new();
    let mut i: usize = 0;
    while i < bls_keys_pop.len()
        invariant
            i <= bls_keys_pop@.len(),
            bls_keys@.len() == i,
            forall|j: int| 0 <= j < i ==> (#[trigger] bls_keys@[j])@ == bls_keys_pop@[j].key@,
        decreases bls_keys_pop@.len() - i,
    {
        bls_keys.push(copy_bytes(bls_keys_pop[i].key.as_slice()));
        i = i + 1;
    }
    assert(views(bls_keys@) =~= pop_keys(bls_keys_pop@));
    bls_keys
}

/// The deployment salt of a wallet with `passkey` and BLS keys `bls_keys`:
/// the hash of the passkey and of the keys' aggregate; fails with
/// `MissingBlsKeys` when there is no key.
pub fn read_pop_salt(
    e: &soroban_sdk::Env,
    passkey: &[u8],
    bls_keys: &Vec<Vec<u8>>,
) -> (r: Result<Vec<u8>, FactoryError>)
    requires
        passkey@.len() <= u32::MAX,
        forall|i: int| 0 <= i < bls_keys@.len() ==> g1_point(#[trigger] bls_keys@[i]@),
    ensures
        bls_keys@.len() == 0 ==> r == Err::<Vec<u8>, FactoryError>(FactoryError::MissingBlsKeys),
        bls_keys@.len() > 0 ==> (r matches Ok(salt) && salt@ == sha256_digest(
            pop_salt_preimage(passkey@, bls_aggregate(views(bls_keys@))),
        )),
{
    if bls_keys.len() == 0 {
        return Err(FactoryError::MissingBlsKeys);
    }
    let agg = read_agg_bls_key(e, bls_keys);
    let mut salt: Vec<u8> = Vec::new();
    push_xdr_bytes(&mut salt, passkey);
    push_xdr_bytes(&mut salt, agg.as_slice());
    assert(salt@ =~= pop_salt_preimage(passkey@, agg@));
    Ok(sha256(e, salt.as_slice()))
}

/// Every key is an encoded G1 point and every proof an encoded G2 point.
pub open spec fn pops_encoded(pops: Seq<BlsKeyWithProof>) -> bool {
    forall|i: int| 0 <= i < pops.len() ==> g1_point(#[trigger] pops[i].key@) && g2_point(pops[i].sig@)
}

/// The proof of possession of `key` by `sig` over `salt` verifies: the
/// pairing of the key with the salt hashed into G2 under `dst`, times the
/// pairing of the negated generator `neg_g1` with the signature, is the
/// identity.
pub open spec fn pop_verifies(key: Seq<u8>, sig: Seq<u8>, salt: Seq<u8>, dst: Seq<u8>, neg_g1: Seq<u8>) -> bool {
    pairing_holds(seq![key, neg_g1], seq![g2_hash(salt, dst), sig])
}

/// The points of a proof check lie in their subgroups, as the host's
/// pairing check demands.
pub open spec fn pop_points_ok(key: Seq<u8>, sig: Seq<u8>, neg_g1: Seq<u8>) -> bool {
    g1_in_subgroup(key) && g1_in_subgroup(neg_g1) && g2_in_subgroup(sig)
}

/// Checks the proofs of `pops` over `salt` in order from the `i`-th on:
/// `None` at the first whose points the host would refuse (it traps),
/// `Some(false)` at the first proof that fails, `Some(true)` when all
/// verify.
pub open spec fn pop_scan(pops: Seq<BlsKeyWithProof>, salt: Seq<u8>, dst: Seq<u8>, neg_g1: Seq<u8>, i: nat) -> Option<bool>
    decreases pops.len() - i,
{
    if i >= pops.len() {
        Some(true)
    } else if !pop_points_ok(pops[i as int].key@, pops[i as int].sig@, neg_g1) {
        None
    } else if !pop_verifies(pops[i as int].key@, pops[i as int].sig@, salt, dst, neg_g1) {
        Some(false)
    } else {
        pop_scan(pops, salt, dst, neg_g1, i + 1)
    }
}

/// Verifies the proof of possession of one key over the deployment salt;
/// fails with `InvalidPoPSignature` when the pairing equation does not
/// hold.
pub fn validate_a_bls_key_pop(
    e: &soroban_sdk::Env,
    salt: &[u8],
    bls_key_pop: &BlsKeyWithProof,
    dst: &[u8],
    neg_g1: &[u8],
) -> (r: Result<(), FactoryError>)
    requires
        g1_point(bls_key_pop.key@),
        g2_point(bls_key_pop.sig@),
        g1_point(neg_g1@),
        0 < dst@.len() <= 255,
        pop_points_ok(bls_key_pop.key@, bls_key_pop.sig@, neg_g1@),
    ensures
        r is Ok <==> pop_verifies(bls_key_pop.key@, bls_key_pop.sig@, salt@, dst@, neg_g1@),
        r is Err ==> r == Err::<(), FactoryError>(FactoryError::InvalidPoPSignature),
{
    let msg_g2 = hash_to_g2(e, salt, dst);
    let vp1: Vec<Vec<u8>> = vec![copy_bytes(bls_key_pop.key.as_slice()), copy_bytes(neg_g1)];
    let vp2: Vec<Vec<u8>> = vec![msg_g2, copy_bytes(bls_key_pop.sig.as_slice())];
    proof {
        assert(views(vp1@) =~= seq![bls_key_pop.key@, neg_g1@]);
        assert(views(vp2@) =~= seq![g2_hash(salt@, dst@), bls_key_pop.sig@]);
    }
    if !pairing_check(e, &vp1, &vp2) {
        return Err(FactoryError::InvalidPoPSignature);
    }
    Ok(())
}

/// Checks the proofs of `pops` over `salt` in order; see `pop_scan`.
/// `None` where the host would refuse a point; otherwise the first failed
/// proof's error, if any.
pub fn validate_pops(
    e: &soroban_sdk::Env,
    salt: &[u8],
    pops: &Vec<BlsKeyWithProof>,
    dst: &[u8],
    neg_g1: &[u8],
) -> (r: Option<Result<(), FactoryError>>)
    requires
        pops_encoded(pops@),
        g1_point(neg_g1@),
        0 < dst@.len() <= 255,
    ensures
        r == (match pop_scan(pops@, salt@, dst@, neg_g1@, 0) {
            None => None,
            Some(true) => Some(Ok(())),
            Some(false) => Some(Err(FactoryError::InvalidPoPSignature)),
        }),
{
    let mut i: usize = 0;
    while i < pops.len()
        invariant
            i <= pops@.len(),
            pops_encoded(pops@),
            g1_point(neg_g1@),
            0 < dst@.len() <= 255,
            pop_scan(pops@, salt@, dst@, neg_g1@, 0) == pop_scan(pops@, salt@, dst@, neg_g1@, i as nat),
        decreases pops@.len() - i,
    {
        let pop = &pops[i];
        assert(g1_point(pop.key@) && g2_point(pop.sig@));
        if !g1_is_in_subgroup(e, pop.key.as_slice()) || !g1_is_in_subgroup(e, neg_g1)
            || !g2_is_in_subgroup(e, pop.sig.as_slice()) {
            return None;
        }
        match validate_a_bls_key_pop(e, salt, pop, dst, neg_g1) {
            Ok(_) => {},
            Err(err) => return Some(Err(err)),
        }
        i = i + 1;
    }
    Some(Ok(()))
}

/// The deployment salt commits to the signer set, not its order: under the
/// group law of the host's addition, reordered keys give the same salt.
pub proof fn lemma_pop_salt_order_independent(passkey: Seq<u8>, keys: Seq<Seq<u8>>, perm: Seq<Seq<u8>>)
    requires
        g1_group_laws(),
        keys.len() > 0,
        all_g1_points(keys),
        perm.to_multiset() == keys.to_multiset(),
    ensures
        sha256_digest(pop_salt_preimage(passkey, bls_aggregate(perm))) == sha256_digest(
            pop_salt_preimage(passkey, bls_aggregate(keys)),
        ),
{
    lemma_aggregate_order_independent(keys, perm);
}

} // verus!
