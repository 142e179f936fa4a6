//! Identity bindings, written once and never rebound.
use vstd::prelude::*;
use crate::address::{Address, AddressKind};
use crate::errors::ContractError;
use crate::host::sha256_digest;
use crate::keymap::ByteMap;
use crate::utils::{DataKey, passkey_salt, passkey_wallet_key, userid_key_result, userid_wallet_key};

verus! {

/// The addresses stored in a map of wallets.
pub open spec fn wallet_view(m: Map<Seq<u8>, Address>) -> Map<Seq<u8>, (AddressKind, Seq<u8>)> {
    m.map_values(|a: Address| a@)
}

/// Storing a wallet under a key.
proof fn lemma_wallet_view_insert(m: Map<Seq<u8>, Address>, k: Seq<u8>, a: Address)
    ensures
        wallet_view(m.insert(k, a)) == wallet_view(m).insert(k, a@),
{
    assert(wallet_view(m.insert(k, a)) =~= wallet_view(m).insert(k, a@));
}

/// Bindings of identities and passkeys to wallets, keyed by their hashes.
pub struct IdentityMaps {
    pub userid_wallets: ByteMap<Address>,
    pub passkey_wallets: ByteMap<Address>,
}

impl IdentityMaps {
    /// Well-formedness.
    pub open spec fn wf(&self) -> bool {
        self.userid_wallets.wf() && self.passkey_wallets.wf()
    }

    /// Identity key hash -> wallet.
    pub open spec fn userid_view(&self) -> Map<Seq<u8>, (AddressKind, Seq<u8>)> {
        wallet_view(self.userid_wallets.view())
    }

    /// Passkey key hash -> wallet.
    pub open spec fn passkey_view(&self) -> Map<Seq<u8>, (AddressKind, Seq<u8>)> {
        wallet_view(self.passkey_wallets.view())
    }

    /// No bindings.
    pub fn new() -> (m: Self)
        ensures
            m.wf(),
            m.userid_view() == Map::<Seq<u8>, (AddressKind, Seq<u8>)>::empty(),
            m.passkey_view() == Map::<Seq<u8>, (AddressKind, Seq<u8>)>::empty(),
    {
        let m = IdentityMaps { userid_wallets: ByteMap::new(), passkey_wallets: ByteMap::new() };
        assert(m.userid_view() =~= Map::<Seq<u8>, (AddressKind, Seq<u8>)>::empty());
        assert(m.passkey_view() =~= Map::<Seq<u8>, (AddressKind, Seq<u8>)>::empty());
        m
    }
}

/// The wallet bound to `(platform, user_id)`, if any; fails where the
/// platform or the user id is not accepted.
pub fn read_userid_wallet_map(
    m: &IdentityMaps,
    e: &soroban_sdk::Env,
    platform: &[u8],
    user_id: &[u8],
) -> (r: Result<Option<Address>, ContractError>)
    requires
        m.wf(),
    ensures
        match userid_key_result(platform@, user_id@) {
            Err(err) => r == Err::<Option<Address>, ContractError>(err),
            Ok(k) => match r {
                Ok(Some(a)) => m.userid_view().contains_key(k) && m.userid_view()[k] == a@,
                Ok(None) => !m.userid_view().contains_key(k),
                Err(_) => false,
            },
        },
{
    let key = match userid_wallet_key(e, platform, user_id) {
        Ok(DataKey::UseridWalletMap(h)) => h,
        Ok(_) => return Err(ContractError::InvalidUserId),
        Err(err) => return Err(err),
    };
    match m.userid_wallets.get(key.as_slice()) {
        Some(a) => Ok(Some(a.copy())),
        None => Ok(None),
    }
}

/// Binds `(platform, userid)` to `wallet`. An identity is bound at most
/// once: a bound identity fails with `UseridAlreadyMapped`. Any failure
/// leaves the bindings unchanged.
pub fn write_userid_wallet_map(
    m: &mut IdentityMaps,
    e: &soroban_sdk::Env,
    platform: &[u8],
    userid: &[u8],
    wallet: &Address,
) -> (r: Result<(), ContractError>)
    requires
        old(m).wf(),
    ensures
        final(m).wf(),
        r is Err ==> *final(m) == *old(m),
        match userid_key_result(platform@, userid@) {
            Err(err) => r == Err::<(), ContractError>(err),
            Ok(k) => if old(m).userid_view().contains_key(k) {
                r == Err::<(), ContractError>(ContractError::UseridAlreadyMapped)
            } else {
                r is Ok && final(m).userid_view() == old(m).userid_view().insert(k, wallet@)
                    && final(m).passkey_wallets == old(m).passkey_wallets
            },
        },
{
    let key = match userid_wallet_key(e, platform, userid) {
        Ok(DataKey::UseridWalletMap(h)) => h,
        Ok(_) => return Err(ContractError::InvalidUserId),
        Err(err) => return Err(err),
    };
    if m.userid_wallets.contains_key(key.as_slice()) {
        return Err(ContractError::UseridAlreadyMapped);
    }
    let ghost pre = m.userid_wallets.view();
    m.userid_wallets.set(key.as_slice(), wallet.copy());
    proof {
        lemma_wallet_view_insert(pre, key@, m.userid_wallets.view()[key@]);
    }
    Ok(())
}

/// Binds `passkey` to `wallet`. A passkey is bound at most once: a bound
/// passkey fails with `PasskeyAlreadyMapped`, leaving the bindings unchanged.
pub fn write_passkey_wallet_map(
    m: &mut IdentityMaps,
    e: &soroban_sdk::Env,
    passkey: &[u8],
    wallet: &Address,
) -> (r: Result<(), ContractError>)
    requires
        old(m).wf(),
    ensures
        final(m).wf(),
        r is Err ==> *final(m) == *old(m),
        old(m).passkey_view().contains_key(sha256_digest(passkey_salt(passkey@))) ==> r == Err::<
            (),
            ContractError,
        >(ContractError::PasskeyAlreadyMapped),
        !old(m).passkey_view().contains_key(sha256_digest(passkey_salt(passkey@))) ==> r is Ok
            && final(m).passkey_view() == old(m).passkey_view().insert(
            sha256_digest(passkey_salt(passkey@)),
            wallet@,
        ) && final(m).userid_wallets == old(m).userid_wallets,
{
    let key = match passkey_wallet_key(e, passkey) {
        Ok(DataKey::PasskeyWalletMap(h)) => h,
        _ => return Err(ContractError::PasskeyAlreadyMapped),
    };
    if m.passkey_wallets.contains_key(key.as_slice()) {
        return Err(ContractError::PasskeyAlreadyMapped);
    }
    let ghost pre = m.passkey_wallets.view();
    m.passkey_wallets.set(key.as_slice(), wallet.copy());
    proof {
        lemma_wallet_view_insert(pre, key@, m.passkey_wallets.view()[key@]);
    }
    Ok(())
}

/// The wallet bound to `passkey`, if any.
pub fn read_passkey_wallet_map(m: &IdentityMaps, e: &soroban_sdk::Env, passkey: &[u8]) -> (r: Result<
    Option<Address>,
    ContractError,
>)
    requires
        m.wf(),
    ensures
        match r {
            Ok(Some(a)) => m.passkey_view().contains_key(sha256_digest(passkey_salt(passkey@)))
                && m.passkey_view()[sha256_digest(passkey_salt(passkey@))] == a@,
            Ok(None) => !m.passkey_view().contains_key(sha256_digest(passkey_salt(passkey@))),
            Err(_) => false,
        },
{
    let key = match passkey_wallet_key(e, passkey) {
        Ok(DataKey::PasskeyWalletMap(h)) => h,
        _ => return Ok(None),
    };
    match m.passkey_wallets.get(key.as_slice()) {
        Some(a) => Ok(Some(a.copy())),
        None => Ok(None),
    }
}

} // verus!
