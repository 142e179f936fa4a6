//! The contract host: the handle through which hashing is done.
use vstd::prelude::*;

verus! {

/// The host environment handle of a contract invocation.
#[verifier::external_type_specification]
#[verifier::external_body]
pub struct ExEnv(soroban_sdk::Env);

/// The SHA-256 digest of a byte string, as the host computes it.
pub uninterp spec fn sha256_digest(data: Seq<u8>) -> Seq<u8>;

/// Calls the host's `Crypto::sha256` on `data`. Claimed: the result is the
/// digest of `data` (the same bytes give the same digest) and is 32 bytes
/// long. Not stated: the host aborts the invocation when its resource budget
/// is exhausted.
#[verifier::external_body]
pub fn sha256(e: &soroban_sdk::Env, data: &[u8]) -> (r: Vec<u8>)
    ensures
        r@ == sha256_digest(data@),
        r@.len() == 32,
{
    e.crypto().sha256(&soroban_sdk::Bytes::from_slice(e, data)).to_array().to_vec()
}

} // verus!
