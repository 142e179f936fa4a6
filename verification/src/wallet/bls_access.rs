//! The wallet's authentication material and owner.
use vstd::prelude::*;
use crate::access::opt_view;
use crate::address::Address;
use crate::bytes::copy_bytes;
use crate::tokens::TokenSettings;
use crate::upgrade::storage::opt_bytes;
use crate::bls::{all_g1_points, bls_aggregate, read_agg_bls_key};
use crate::keyset::views;

verus! {

/// Most BLS keys a wallet may hold.
pub const MAX_BLS_KEYS: u32 = 10;

/// Errors of the wallet contract.
#[derive(Clone, Copy, Debug, PartialEq, Eq, Structural)]
pub enum WalletError {
    InvalidSignature,
    AlreadyInitialized,
    ExceedMaxAllowance,
    InvalidLimit,
    InvalidAmount,
    InvalidInvokeContract,
    InvalidInvokeFunction,
    TooManyKeys,
}

/// The wallet contract's state.
pub struct Wallet {
    /// The factory that deployed the wallet.
    pub factory: Option<Address>,
    /// The linked external account.
    pub owner: Option<Address>,
    /// Aggregate of the wallet's BLS public keys; set once initialized.
    pub agg_bls_key: Option<Vec<u8>>,
    /// The passkey payload.
    pub passkey: Option<Vec<u8>>,
    /// Spending limits and allowance lifetime.
    pub tokens: TokenSettings,
}

/// Whether the wallet has been initialized (its aggregate key is stored).
pub fn is_initialized(w: &Wallet) -> (r: bool)
    ensures
        r == w.agg_bls_key is Some,
{
    w.agg_bls_key.is_some()
}

/// The linked external account, if any.
pub fn read_owner(w: &Wallet) -> (r: Option<Address>)
    ensures
        opt_view(r) == opt_view(w.owner),
{
    match &w.owner {
        Some(a) => Some(a.copy()),
        None => None,
    }
}

/// Links an external account, replacing any earlier one.
pub fn write_owner(w: &mut Wallet, owner: &Address)
    ensures
        opt_view(final(w).owner) == Some(owner@),
        final(w).factory == old(w).factory,
        final(w).agg_bls_key == old(w).agg_bls_key,
        final(w).passkey == old(w).passkey,
        final(w).tokens == old(w).tokens,
{
    w.owner = Some(owner.copy());
}

/// Stores the aggregate of the non-empty key list `bls_keys`; fails with
/// `TooManyKeys`, changing nothing, above `MAX_BLS_KEYS` keys.
pub fn write_agg_bls_key(w: &mut Wallet, e: &soroban_sdk::Env, bls_keys: &Vec<Vec<u8>>) -> (r: Result<(), WalletError>)
    requires
        bls_keys@.len() > 0,
        1 < bls_keys@.len() <= MAX_BLS_KEYS ==> all_g1_points(views(bls_keys@)),
    ensures
        bls_keys@.len() > MAX_BLS_KEYS ==> r == Err::<(), WalletError>(WalletError::TooManyKeys) && *final(w) == *old(w),
        bls_keys@.len() <= MAX_BLS_KEYS ==> r is Ok && opt_bytes(final(w).agg_bls_key) == Some(
            bls_aggregate(views(bls_keys@)),
        ),
        final(w).factory == old(w).factory,
        final(w).owner == old(w).owner,
        final(w).passkey == old(w).passkey,
        final(w).tokens == old(w).tokens,
{
    if bls_keys.len() > MAX_BLS_KEYS as usize {
        return Err(WalletError::TooManyKeys);
    }
    w.agg_bls_key = Some(read_agg_bls_key(e, bls_keys));
    Ok(())
}

/// The stored aggregate BLS key, if any.
pub fn read_aggregated_bls_key(w: &Wallet) -> (r: Option<Vec<u8>>)
    ensures
        opt_bytes(r) == opt_bytes(w.agg_bls_key),
{
    match &w.agg_bls_key {
        Some(k) => Some(copy_bytes(k.as_slice())),
        None => None,
    }
}

/// Stores the passkey payload, replacing any earlier one.
pub fn write_passkey(w: &mut Wallet, passkey: &[u8])
    ensures
        opt_bytes(final(w).passkey) == Some(passkey@),
        final(w).factory == old(w).factory,
        final(w).owner == old(w).owner,
        final(w).agg_bls_key == old(w).agg_bls_key,
        final(w).tokens == old(w).tokens,
{
    w.passkey = Some(copy_bytes(passkey));
}

/// The stored passkey payload, if any.
pub fn read_passkey(w: &Wallet) -> (r: Option<Vec<u8>>)
    ensures
        opt_bytes(r) == opt_bytes(w.passkey),
{
    match &w.passkey {
        Some(k) => Some(copy_bytes(k.as_slice())),
        None => None,
    }
}

} // verus!
