//! Canonical identity strings and the storage keys derived from them.
use vstd::prelude::*;
use crate::bytes::append_bytes;
use crate::errors::ContractError;
use crate::host::{sha256, sha256_digest};
use crate::types::{SocialPlatform, ascii, lemma_literal_bytes};

verus! {

/// Longest accepted user id, in bytes.
pub const MAX_LEN: u32 = 256;

/// Storage keys of identity bindings.
#[derive(Clone, Debug)]
pub enum DataKey {
    Admin,
    UseridWalletMap(Vec<u8>),
    PasskeyWalletMap(Vec<u8>),
}

/// An uppercase ASCII letter.
pub open spec fn is_upper_byte(b: u8) -> bool {
    65 <= b <= 90
}

/// An ASCII whitespace byte: tab, newline, vertical tab, form feed,
/// carriage return or space.
pub open spec fn is_space_byte(b: u8) -> bool {
    b == 9 || b == 10 || b == 11 || b == 12 || b == 13 || b == 32
}

/// Scans the bytes from `i` on: the first uppercase letter or whitespace
/// byte decides the error.
pub open spec fn scan_userid(s: Seq<u8>, i: nat) -> Result<(), ContractError>
    decreases s.len() - i,
{
    if i >= s.len() {
        Ok(())
    } else if is_upper_byte(s[i as int]) {
        Err(ContractError::UpperNotAllowed)
    } else if is_space_byte(s[i as int]) {
        Err(ContractError::SpacesNotAllowed)
    } else {
        scan_userid(s, i + 1)
    }
}

/// Outcome of validating a user id.
pub open spec fn userid_validation(s: Seq<u8>) -> Result<(), ContractError> {
    if s.len() == 0 {
        Err(ContractError::InvalidUserId)
    } else if s.len() > MAX_LEN {
        Err(ContractError::MaxLengthExceeded)
    } else {
        scan_userid(s, 0)
    }
}

/// A canonical user id: non-empty, at most `MAX_LEN` bytes, no uppercase
/// ASCII letter and no ASCII whitespace.
pub open spec fn is_canonical_userid(s: Seq<u8>) -> bool {
    &&& 0 < s.len() <= MAX_LEN
    &&& forall|i: int| 0 <= i < s.len() ==> !is_upper_byte(#[trigger] s[i]) && !is_space_byte(s[i])
}

proof fn lemma_scan_ok(s: Seq<u8>, i: nat)
    ensures
        (scan_userid(s, i) is Ok) == (forall|j: int| i <= j < s.len() ==> !is_upper_byte(
            #[trigger] s[j],
        ) && !is_space_byte(s[j])),
    decreases s.len() - i,
{
    if i < s.len() {
        lemma_scan_ok(s, i + 1);
    }
}

/// A user id passes validation exactly when it is canonical.
pub proof fn lemma_userid_valid_iff_canonical(s: Seq<u8>)
    ensures
        (userid_validation(s) is Ok) == is_canonical_userid(s),
{
    lemma_scan_ok(s, 0);
}

/// Validates a user id used for platform bindings.
pub fn validate_userid(id: &[u8]) -> (r: Result<(), ContractError>)
    ensures
        r == userid_validation(id@),
{
    let len = id.len();
    if len == 0 {
        return Err(ContractError::InvalidUserId);
    }
    if len > MAX_LEN as usize {
        return Err(ContractError::MaxLengthExceeded);
    }
    let mut i: usize = 0;
    while i < len
        invariant
            len == id@.len(),
            0 < len <= MAX_LEN,
            i <= len,
            scan_userid(id@, 0) == scan_userid(id@, i as nat),
        decreases len - i,
    {
        let v = id[i];
        if v >= 65 && v <= 90 {
            return Err(ContractError::UpperNotAllowed);
        }
        if v == 9 || v == 10 || v == 11 || v == 12 || v == 13 || v == 32 {
            return Err(ContractError::SpacesNotAllowed);
        }
        i = i + 1;
    }
    Ok(())
}

/// `"userid_wallet"`, the domain of identity keys.
pub open spec fn userid_domain() -> Seq<char> {
    seq!['u', 's', 'e', 'r', 'i', 'd', '_', 'w', 'a', 'l', 'l', 'e', 't']
}

/// `"passkey_wallet"`, the domain of passkey keys.
pub open spec fn passkey_domain() -> Seq<char> {
    seq!['p', 'a', 's', 's', 'k', 'e', 'y', '_', 'w', 'a', 'l', 'l', 'e', 't']
}

/// The bytes hashed into an identity key:
/// `"userid_wallet" 0x00 platform 0x00 user_id`.
pub open spec fn userid_salt(p: SocialPlatform, user_id: Seq<u8>) -> Seq<u8> {
    ascii(userid_domain()) + seq![0u8] + ascii(p.name()) + seq![0u8] + user_id
}

/// The bytes hashed into a passkey key: `"passkey_wallet" 0x00 passkey`.
pub open spec fn passkey_salt(passkey: Seq<u8>) -> Seq<u8> {
    ascii(passkey_domain()) + seq![0u8] + passkey
}

/// Outcome of deriving the identity key of `(platform, user_id)`: the
/// platform is parsed, the user id validated, then the salt hashed.
pub open spec fn userid_key_result(platform: Seq<u8>, user_id: Seq<u8>) -> Result<Seq<u8>, ContractError> {
    match SocialPlatform::parse(platform) {
        None => Err(ContractError::PlatformNotSupported),
        Some(p) => match userid_validation(user_id) {
            Err(e) => Err(e),
            Ok(_) => Ok(sha256_digest(userid_salt(p, user_id))),
        },
    }
}

/// Builds the salt of an identity key.
fn build_userid_salt(p: SocialPlatform, user_id: &[u8]) -> (r: Vec<u8>)
    ensures
        r@ == userid_salt(p, user_id@),
{
    let dom = "userid_wallet";
    proof {
        reveal_strlit("userid_wallet");
        assert(dom@ =~= userid_domain());
        lemma_literal_bytes(dom, userid_domain());
    }
    let mut salt: Vec<u8> = Vec::new();
    append_bytes(&mut salt, dom.as_bytes());
    salt.push(0u8);
    append_bytes(&mut salt, p.as_str().as_bytes());
    salt.push(0u8);
    append_bytes(&mut salt, user_id);
    assert(salt@ =~= userid_salt(p, user_id@));
    salt
}

/// The hash identifying `(platform, user_id)`.
fn userid_hash(e: &soroban_sdk::Env, platform_str: &[u8], user_id: &[u8]) -> (r: Result<Vec<u8>, ContractError>)
    ensures
        match r {
            Ok(h) => userid_key_result(platform_str@, user_id@) == Ok::<Seq<u8>, ContractError>(h@) && h@.len() == 32,
            Err(err) => userid_key_result(platform_str@, user_id@) == Err::<Seq<u8>, ContractError>(err),
        },
{
    let platform = match SocialPlatform::is_platform_supported(platform_str) {
        Ok(p) => p,
        Err(err) => return Err(err),
    };
    match validate_userid(user_id) {
        Ok(_) => {},
        Err(err) => return Err(err),
    }
    let salt = build_userid_salt(platform, user_id);
    Ok(sha256(e, salt.as_slice()))
}

/// Derives the storage key of a `(platform, user_id) -> wallet` binding.
pub fn userid_wallet_key(e: &soroban_sdk::Env, platform_str: &[u8], user_id: &[u8]) -> (r: Result<DataKey, ContractError>)
    ensures
        match r {
            Ok(DataKey::UseridWalletMap(h)) => userid_key_result(platform_str@, user_id@) == Ok::<Seq<u8>, ContractError>(h@),
            Ok(_) => false,
            Err(err) => userid_key_result(platform_str@, user_id@) == Err::<Seq<u8>, ContractError>(err),
        },
{
    match userid_hash(e, platform_str, user_id) {
        Ok(h) => Ok(DataKey::UseridWalletMap(h)),
        Err(err) => Err(err),
    }
}

/// Derives the storage key of a `passkey -> wallet` binding.
pub fn passkey_wallet_key(e: &soroban_sdk::Env, passkey: &[u8]) -> (r: Result<DataKey, ContractError>)
    ensures
        match r {
            Ok(DataKey::PasskeyWalletMap(h)) => h@ == sha256_digest(passkey_salt(passkey@)),
            _ => false,
        },
{
    let dom = "passkey_wallet";
    proof {
        reveal_strlit("passkey_wallet");
        assert(dom@ =~= passkey_domain());
        lemma_literal_bytes(dom, passkey_domain());
    }
    let mut salt: Vec<u8> = Vec::new();
    append_bytes(&mut salt, dom.as_bytes());
    salt.push(0u8);
    append_bytes(&mut salt, passkey);
    assert(salt@ =~= passkey_salt(passkey@));
    Ok(DataKey::PasskeyWalletMap(sha256(e, salt.as_slice())))
}

/// The hash under which payments to `(platform, user_id)` are indexed; it
/// is the same hash as the identity key's.
pub fn userid_payment_key(e: &soroban_sdk::Env, platform_str: &[u8], user_id: &[u8]) -> (r: Result<Vec<u8>, ContractError>)
    ensures
        match r {
            Ok(h) => userid_key_result(platform_str@, user_id@) == Ok::<Seq<u8>, ContractError>(h@) && h@.len() == 32,
            Err(err) => userid_key_result(platform_str@, user_id@) == Err::<Seq<u8>, ContractError>(err),
        },
{
    userid_hash(e, platform_str, user_id)
}

/// `"twitter"` and `"x"` name one identity: both give the same key.
pub proof fn lemma_twitter_alias(user_id: Seq<u8>)
    ensures
        userid_key_result(ascii(crate::types::twitter_name()), user_id) == userid_key_result(
            ascii(SocialPlatform::X.name()),
            user_id,
        ),
{
    crate::types::lemma_platform_roundtrip(SocialPlatform::X);
    assert(SocialPlatform::parse(ascii(crate::types::twitter_name())) == Some(SocialPlatform::X));
}

/// No platform name holds a zero byte.
proof fn lemma_name_has_no_zero(p: SocialPlatform)
    ensures
        forall|i: int| 0 <= i < ascii(p.name()).len() ==> #[trigger] ascii(p.name())[i] != 0u8,
{
    let n = ascii(p.name());
    assert forall|i: int| 0 <= i < n.len() implies #[trigger] n[i] != 0u8 by {
        assert(n[i] == p.name()[i] as u8);
        assert(97 <= p.name()[i] as u8 <= 122);
    }
}

/// The identity salt is unambiguous: the zero separators keep the platform
/// name and the user id apart, so equal salts come from the same platform
/// and user id.
pub proof fn lemma_userid_salt_injective(p1: SocialPlatform, u1: Seq<u8>, p2: SocialPlatform, u2: Seq<u8>)
    requires
        userid_salt(p1, u1) == userid_salt(p2, u2),
    ensures
        p1 == p2,
        u1 == u2,
{
    let h = ascii(userid_domain()) + seq![0u8];
    let n1 = ascii(p1.name());
    let n2 = ascii(p2.name());
    let t1 = n1 + seq![0u8] + u1;
    let t2 = n2 + seq![0u8] + u2;
    assert(userid_salt(p1, u1) =~= h + t1);
    assert(userid_salt(p2, u2) =~= h + t2);
    crate::bytes::lemma_prefix_cancel(h, t1, t2);
    lemma_name_has_no_zero(p1);
    lemma_name_has_no_zero(p2);
    if n1.len() < n2.len() {
        assert(t1[n1.len() as int] == 0u8);
        assert(t2[n1.len() as int] == n2[n1.len() as int]);
    }
    if n2.len() < n1.len() {
        assert(t2[n2.len() as int] == 0u8);
        assert(t1[n2.len() as int] == n1[n2.len() as int]);
    }
    assert(n1 =~= t1.subrange(0, n1.len() as int));
    assert(n2 =~= t2.subrange(0, n2.len() as int));
    crate::bytes::lemma_prefix_cancel(n1 + seq![0u8], u1, u2);
    crate::types::lemma_platform_roundtrip(p1);
    crate::types::lemma_platform_roundtrip(p2);
}

/// Scanning from `k` meets the uppercase byte at `i` before any other
/// refusal when no whitespace byte lies between.
proof fn lemma_scan_first_offender(s: Seq<u8>, k: nat, i: int)
    requires
        k <= i < s.len(),
        65 <= s[i] <= 90,
        forall|j: int| k <= j < i ==> !(s[j] == 9 || s[j] == 10 || s[j] == 11 || s[j] == 12 || s[j] == 13 || s[j] == 32),
    ensures
        scan_userid(s, k) == Err::<(), ContractError>(ContractError::UpperNotAllowed),
    decreases i - k,
{
    if k < i {
        lemma_scan_first_offender(s, k + 1, i);
    }
}

/// Uppercase letters are refused: a user id of accepted length holding a
/// byte of `'A'..='Z'` (65 to 90) with no whitespace byte before it fails
/// with `UpperNotAllowed`.
pub proof fn lemma_uppercase_refused(s: Seq<u8>, i: int)
    requires
        0 < s.len() <= 256,
        0 <= i < s.len(),
        65 <= s[i] <= 90,
        forall|j: int| 0 <= j < i ==> !(s[j] == 9 || s[j] == 10 || s[j] == 11 || s[j] == 12 || s[j] == 13 || s[j] == 32),
    ensures
        userid_validation(s) == Err::<(), ContractError>(ContractError::UpperNotAllowed),
{
    lemma_scan_first_offender(s, 0, i);
}

/// A user id is accepted exactly when it has 1 to 256 bytes, none of them
/// an uppercase letter `'A'..='Z'` (65 to 90) nor a whitespace byte (9 to
/// 13, 32).
pub proof fn lemma_userid_accepted_bytes(s: Seq<u8>)
    ensures
        (userid_validation(s) is Ok) == (0 < s.len() <= 256 && forall|i: int|
            0 <= i < s.len() ==> !(65 <= #[trigger] s[i] <= 90) && !(9 <= s[i] <= 13) && s[i] != 32),
{
    lemma_scan_ok(s, 0);
}

} // verus!
