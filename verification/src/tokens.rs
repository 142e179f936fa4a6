//! Token settings of a contract: supported assets, spending limits and the
//! lifetime of allowances.
use vstd::prelude::*;
use crate::address::{Address, AddressKind, AddressSet, address_key};
use crate::errors::ContractError;
use crate::keymap::ByteMap;

verus! {

/// Ledgers an allowance stays valid for when none is configured.
pub const DEFAULT_ALLOWANCE_EXPIRATION: u32 = 17000;

/// A transfer of `amount` of `asset` to `to`, to be made by the token
/// contract of `asset`.
pub struct Transfer {
    pub asset: Address,
    pub to: Address,
    pub amount: i128,
}

/// A transfer of `amount` of `asset` from `from` into the contract, made
/// by the token contract of `asset` once `from` has authorized it.
pub struct Deposit {
    pub asset: Address,
    pub from: Address,
    pub amount: i128,
}

/// Token settings held in a contract's storage.
pub struct TokenSettings {
    /// Allowance lifetime in ledgers; `None` when not configured.
    pub allowance_expiration: Option<u32>,
    /// Default per-transaction spending limit; `None` when not configured.
    pub default_spend_limit: Option<i128>,
    /// Per-asset spending limits, keyed by asset address key.
    pub spend_limits: ByteMap<i128>,
    /// Assets accepted for payments.
    pub supported_assets: AddressSet,
}

impl TokenSettings {
    /// Well-formedness.
    pub open spec fn wf(&self) -> bool {
        self.spend_limits.wf() && self.supported_assets.wf()
    }

    /// The allowance lifetime in effect.
    pub open spec fn expiration(&self) -> u32 {
        match self.allowance_expiration {
            Some(x) => x,
            None => DEFAULT_ALLOWANCE_EXPIRATION,
        }
    }

    /// The default spending limit in effect.
    pub open spec fn default_limit(&self) -> i128 {
        match self.default_spend_limit {
            Some(x) => x,
            None => 0,
        }
    }

    /// The spending limit in effect for `asset`: its own limit, or the
    /// default one.
    pub open spec fn limit_of(&self, asset: (AddressKind, Seq<u8>)) -> i128 {
        if self.spend_limits.view().contains_key(address_key(asset)) {
            self.spend_limits.view()[address_key(asset)]
        } else {
            self.default_limit()
        }
    }

    /// Nothing configured.
    pub fn new() -> (t: Self)
        ensures
            t.wf(),
            t.allowance_expiration is None,
            t.default_spend_limit is None,
            t.spend_limits.view() == Map::<Seq<u8>, i128>::empty(),
            t.supported_assets.members() == Set::<(AddressKind, Seq<u8>)>::empty(),
            t.supported_assets.size() == 0,
    {
        TokenSettings {
            allowance_expiration: None,
            default_spend_limit: None,
            spend_limits: ByteMap::new(),
            supported_assets: AddressSet::new(),
        }
    }
}

/// Sets the allowance lifetime, in ledgers.
pub fn write_allowance_expiration(t: &mut TokenSettings, ledger_offset: u32)
    ensures
        final(t).allowance_expiration == Some(ledger_offset),
        final(t).default_spend_limit == old(t).default_spend_limit,
        final(t).spend_limits == old(t).spend_limits,
        final(t).supported_assets == old(t).supported_assets,
{
    t.allowance_expiration = Some(ledger_offset);
}

/// The allowance lifetime in effect (17000 ledgers unless configured).
pub fn read_allowance_expiration(t: &TokenSettings) -> (r: u32)
    ensures
        r == t.expiration(),
{
    match t.allowance_expiration {
        Some(x) => x,
        None => DEFAULT_ALLOWANCE_EXPIRATION,
    }
}

/// Sets the default spending limit.
pub fn write_default_spend_limit(t: &mut TokenSettings, limit: i128)
    ensures
        final(t).default_spend_limit == Some(limit),
        final(t).allowance_expiration == old(t).allowance_expiration,
        final(t).spend_limits == old(t).spend_limits,
        final(t).supported_assets == old(t).supported_assets,
{
    t.default_spend_limit = Some(limit);
}

/// The default spending limit in effect (0 unless configured).
pub fn read_default_spend_limit(t: &TokenSettings) -> (r: i128)
    ensures
        r == t.default_limit(),
        t.default_spend_limit is None ==> r == 0,
        t.default_spend_limit matches Some(x) ==> r == x,
{
    match t.default_spend_limit {
        Some(x) => x,
        None => 0,
    }
}

/// The spending limit in effect for `asset`.
pub fn read_limit(t: &TokenSettings, asset: &Address) -> (r: i128)
    requires
        t.wf(),
    ensures
        r == t.limit_of(asset@),
{
    let k = asset.key();
    match t.spend_limits.get(k.as_slice()) {
        Some(l) => *l,
        None => read_default_spend_limit(t),
    }
}

/// Sets the spending limit of `asset`.
pub fn write_limit(t: &mut TokenSettings, asset: &Address, limit: i128)
    requires
        old(t).wf(),
    ensures
        final(t).wf(),
        final(t).limit_of(asset@) == limit,
        final(t).spend_limits.view() == old(t).spend_limits.view().insert(address_key(asset@), limit),
        final(t).allowance_expiration == old(t).allowance_expiration,
        final(t).default_spend_limit == old(t).default_spend_limit,
        final(t).supported_assets == old(t).supported_assets,
{
    let k = asset.key();
    t.spend_limits.set(k.as_slice(), limit);
}

/// An allowance for `spender` to move up to `amount` of `asset` from the
/// contract until ledger `expiration_ledger`, to be granted by the token
/// contract of `asset`.
pub struct Approval {
    pub asset: Address,
    pub spender: Address,
    pub amount: i128,
    pub expiration_ledger: u32,
}

/// The allowance to grant at ledger `sequence`: it expires after the
/// configured lifetime; fails with `InvalidExpiration` when that ledger
/// overflows 32 bits.
pub fn write_approve(t: &TokenSettings, asset: &Address, spender: &Address, amount: i128, sequence: u32) -> (r: Result<Approval, ContractError>)
    ensures
        match r {
            Ok(a) => a.asset@ == asset@ && a.spender@ == spender@ && a.amount == amount
                && a.expiration_ledger == t.expiration() + sequence,
            Err(e) => t.expiration() + sequence > u32::MAX && e == ContractError::InvalidExpiration,
        },
{
    let expiration = match read_allowance_expiration(t).checked_add(sequence) {
        Some(x) => x,
        None => return Err(ContractError::InvalidExpiration),
    };
    Ok(Approval { asset: asset.copy(), spender: spender.copy(), amount, expiration_ledger: expiration })
}

/// Whether `asset` is supported.
pub fn read_is_supported_asset(t: &TokenSettings, asset: &Address) -> (r: bool)
    ensures
        r == t.supported_assets.members().contains(asset@),
{
    t.supported_assets.contains(asset)
}

/// The supported assets, in ledger order.
pub fn read_supported_assets(t: &TokenSettings) -> (r: Vec<Address>)
    requires
        t.wf(),
    ensures
        r@.len() == t.supported_assets.ordered().len(),
        forall|i: int| 0 <= i < r@.len() ==> (#[trigger] r@[i])@ == t.supported_assets.ordered()[i],
        crate::address::lists_exactly(r@, t.supported_assets.members()),
{
    t.supported_assets.to_vec()
}

/// Adds a supported asset; fails with `AssetAlreadySupported`, changing
/// nothing, where it is supported already.
pub fn write_is_supported_asset(t: &mut TokenSettings, asset: &Address) -> (r: Result<(), ContractError>)
    requires
        old(t).wf(),
    ensures
        final(t).wf(),
        old(t).supported_assets.members().contains(asset@) ==> r == Err::<(), ContractError>(
            ContractError::AssetAlreadySupported,
        ) && *final(t) == *old(t),
        !old(t).supported_assets.members().contains(asset@) ==> r is Ok
            && final(t).supported_assets.members() == old(t).supported_assets.members().insert(asset@),
        final(t).allowance_expiration == old(t).allowance_expiration,
        final(t).default_spend_limit == old(t).default_spend_limit,
        final(t).spend_limits == old(t).spend_limits,
{
    if t.supported_assets.contains(asset) {
        return Err(ContractError::AssetAlreadySupported);
    }
    t.supported_assets.insert(asset);
    Ok(())
}

/// Removes a supported asset; fails with `AssetNotSupported`, changing
/// nothing, where it is not supported.
pub fn write_not_supported_asset(t: &mut TokenSettings, asset: &Address) -> (r: Result<(), ContractError>)
    requires
        old(t).wf(),
    ensures
        final(t).wf(),
        !old(t).supported_assets.members().contains(asset@) ==> r == Err::<(), ContractError>(
            ContractError::AssetNotSupported,
        ) && *final(t) == *old(t),
        old(t).supported_assets.members().contains(asset@) ==> r is Ok
            && final(t).supported_assets.members() == old(t).supported_assets.members().remove(asset@),
        final(t).allowance_expiration == old(t).allowance_expiration,
        final(t).default_spend_limit == old(t).default_spend_limit,
        final(t).spend_limits == old(t).spend_limits,
{
    if !t.supported_assets.contains(asset) {
        return Err(ContractError::AssetNotSupported);
    }
    t.supported_assets.remove(asset);
    Ok(())
}

/// Nothing configured means nothing may be spent: while no default limit
/// is set, the default limit in effect is 0, and so is the limit of every
/// asset without a limit of its own.
pub proof fn lemma_unset_limits_are_zero(t: TokenSettings, asset: (AddressKind, Seq<u8>))
    requires
        t.default_spend_limit is None,
        !t.spend_limits.view().contains_key(address_key(asset)),
    ensures
        t.default_limit() == 0,
        t.limit_of(asset) == 0,
{
}

} // verus!
