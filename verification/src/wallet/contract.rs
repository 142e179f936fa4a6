//! The wallet contract's entry points. Calls marked "owner only" run after
//! the owner has authorized them.
use vstd::prelude::*;
use crate::access::opt_view;
use crate::address::{Address, address_key};
use crate::errors::ContractError;
use crate::tokens::{
    Approval, Deposit, TokenSettings, Transfer, read_default_spend_limit, read_limit, write_approve,
    write_default_spend_limit, write_limit,
};
use crate::types::AccessSettings;
use crate::bls::{all_g1_points, bls_aggregate};
use crate::keyset::views;
use super::bls_access::{Wallet, WalletError, read_owner, write_agg_bls_key, write_owner, MAX_BLS_KEYS};

verus! {

/// A transfer the token contract makes on behalf of an approved spender:
/// `amount` of `asset` from the wallet's allowance to `to`.
pub struct SpendFrom {
    pub asset: Address,
    pub spender: Address,
    pub amount: i128,
    pub to: Address,
}

impl Wallet {
    /// Well-formedness.
    pub open spec fn wf(&self) -> bool {
        self.tokens.wf()
    }

    /// A wallet with nothing stored.
    pub fn new() -> (w: Self)
        ensures
            w.wf(),
            w.agg_bls_key is None,
            w.owner is None,
            w.tokens.default_spend_limit is None,
            w.tokens.spend_limits.view() == Map::<Seq<u8>, i128>::empty(),
    {
        Wallet { factory: None, owner: None, agg_bls_key: None, passkey: None, tokens: TokenSettings::new() }
    }

    /// Links an external account (owner only).
    pub fn set_external_wallet(&mut self, external_wallet: &Address) -> (r: Result<(), ContractError>)
        ensures
            r is Ok,
            opt_view(final(self).owner) == Some(external_wallet@),
            final(self).tokens == old(self).tokens,
            final(self).agg_bls_key == old(self).agg_bls_key,
            final(self).factory == old(self).factory,
    {
        write_owner(self, external_wallet);
        Ok(())
    }

    /// Sets the default spending limit (owner only); a negative limit fails
    /// with `InvalidLimit`, changing nothing.
    pub fn update_default_limit(&mut self, limit: i128) -> (r: Result<(), ContractError>)
        ensures
            limit < 0 ==> r == Err::<(), ContractError>(ContractError::InvalidLimit) && *final(self) == *old(self),
            limit >= 0 ==> r is Ok && final(self).tokens.default_spend_limit == Some(limit)
                && final(self).tokens.spend_limits == old(self).tokens.spend_limits
                && final(self).owner == old(self).owner && final(self).agg_bls_key == old(self).agg_bls_key,
    {
        if limit < 0 {
            return Err(ContractError::InvalidLimit);
        }
        write_default_spend_limit(&mut self.tokens, limit);
        Ok(())
    }

    /// Replaces the wallet's BLS keys by `new_bls_keys` (owner only): their
    /// aggregate becomes the wallet's key; see `write_agg_bls_key`.
    pub fn reset_account(&mut self, e: &soroban_sdk::Env, new_bls_keys: &Vec<Vec<u8>>) -> (r: Result<(), WalletError>)
        requires
            old(self).wf(),
            new_bls_keys@.len() > 0,
            1 < new_bls_keys@.len() <= MAX_BLS_KEYS ==> all_g1_points(views(new_bls_keys@)),
        ensures
            final(self).wf(),
            new_bls_keys@.len() > MAX_BLS_KEYS ==> r == Err::<(), WalletError>(WalletError::TooManyKeys) && *final(self) == *old(self),
            new_bls_keys@.len() <= MAX_BLS_KEYS ==> r is Ok && crate::upgrade::storage::opt_bytes(final(self).agg_bls_key)
                == Some(bls_aggregate(views(new_bls_keys@))),
            final(self).owner == old(self).owner,
            final(self).tokens == old(self).tokens,
    {
        write_agg_bls_key(self, e, new_bls_keys)
    }

    /// Replaces the factory (owner only).
    pub fn update_factory(&mut self, factory: &Address) -> (r: Result<(), ContractError>)
        ensures
            r is Ok,
            opt_view(final(self).factory) == Some(factory@),
            final(self).owner == old(self).owner,
            final(self).tokens == old(self).tokens,
            final(self).agg_bls_key == old(self).agg_bls_key,
    {
        self.factory = Some(factory.copy());
        Ok(())
    }

    /// Deposits `amount` of `token` from `from` (who must authorize); a
    /// non-positive amount fails with `InvalidAmount`.
    pub fn deposit(&self, from: &Address, token: &Address, amount: i128) -> (r: Result<Deposit, ContractError>)
        ensures
            amount <= 0 ==> r == Err::<Deposit, ContractError>(ContractError::InvalidAmount),
            amount > 0 ==> (r matches Ok(d) && d.asset@ == token@ && d.amount == amount && d.from@ == from@),
    {
        if amount <= 0 {
            return Err(ContractError::InvalidAmount);
        }
        Ok(Deposit { asset: token.copy(), from: from.copy(), amount })
    }

    /// Withdraws `amount` of `token` to `to` (owner only). The amount must
    /// be positive (`InvalidAmount`) and within the token's spending limit
    /// (`ExceedMaxAllowance`).
    pub fn withdraw(&self, to: &Address, token: &Address, amount: i128) -> (r: Result<Transfer, ContractError>)
        requires
            self.wf(),
        ensures
            amount <= 0 ==> r == Err::<Transfer, ContractError>(ContractError::InvalidAmount),
            amount > 0 && amount > self.tokens.limit_of(token@) ==> r == Err::<Transfer, ContractError>(
                ContractError::ExceedMaxAllowance,
            ),
            0 < amount <= self.tokens.limit_of(token@) ==> (r matches Ok(t) && t.asset@ == token@
                && t.to@ == to@ && t.amount == amount),
            amount > 0 && self.tokens.default_spend_limit is None && !self.tokens.spend_limits.view().contains_key(
                address_key(token@),
            ) ==> r == Err::<Transfer, ContractError>(ContractError::ExceedMaxAllowance),
    {
        if amount <= 0 {
            return Err(ContractError::InvalidAmount);
        }
        if amount > read_limit(&self.tokens, token) {
            return Err(ContractError::ExceedMaxAllowance);
        }
        Ok(Transfer { asset: token.copy(), to: to.copy(), amount })
    }

    /// Sets the spending limit of `token` (owner only); a negative limit
    /// fails with `InvalidLimit`, changing nothing.
    pub fn add_limit(&mut self, token: &Address, limit: i128) -> (r: Result<(), ContractError>)
        requires
            old(self).wf(),
        ensures
            final(self).wf(),
            limit < 0 ==> r == Err::<(), ContractError>(ContractError::InvalidLimit) && *final(self) == *old(self),
            limit >= 0 ==> r is Ok && final(self).tokens.limit_of(token@) == limit
                && final(self).tokens.spend_limits.view() == old(self).tokens.spend_limits.view().insert(address_key(token@), limit)
                && final(self).tokens.default_spend_limit == old(self).tokens.default_spend_limit
                && final(self).owner == old(self).owner && final(self).agg_bls_key == old(self).agg_bls_key,
    {
        if limit < 0 {
            return Err(ContractError::InvalidLimit);
        }
        write_limit(&mut self.tokens, token, limit);
        Ok(())
    }

    /// Lets `spender` move up to `amount` of `token` (owner only), at ledger
    /// `sequence`. The amount must be non-negative (`InvalidAmount`) and
    /// within the token's spending limit (`ExceedMaxAllowance`); the
    /// allowance expires after the configured lifetime.
    pub fn approve(&self, token: &Address, spender: &Address, amount: i128, sequence: u32) -> (r: Result<Approval, ContractError>)
        requires
            self.wf(),
        ensures
            amount < 0 ==> r == Err::<Approval, ContractError>(ContractError::InvalidAmount),
            amount >= 0 && amount > self.tokens.limit_of(token@) ==> r == Err::<Approval, ContractError>(
                ContractError::ExceedMaxAllowance,
            ),
            0 <= amount <= self.tokens.limit_of(token@) && self.tokens.expiration() + sequence > u32::MAX
                ==> r == Err::<Approval, ContractError>(ContractError::InvalidExpiration),
            0 <= amount <= self.tokens.limit_of(token@) && self.tokens.expiration() + sequence <= u32::MAX
                ==> (r matches Ok(a) && a.asset@ == token@ && a.spender@ == spender@ && a.amount == amount
                && a.expiration_ledger == self.tokens.expiration() + sequence),
    {
        if amount < 0 {
            return Err(ContractError::InvalidAmount);
        }
        if amount > read_limit(&self.tokens, token) {
            return Err(ContractError::ExceedMaxAllowance);
        }
        write_approve(&self.tokens, token, spender, amount, sequence)
    }

    /// Lets approved `spender` (who must authorize) send `amount` of `token`
    /// to `to`; a non-positive amount fails with `InvalidAmount`.
    pub fn spend(&self, token: &Address, spender: &Address, amount: i128, to: &Address) -> (r: Result<SpendFrom, ContractError>)
        ensures
            amount <= 0 ==> r == Err::<SpendFrom, ContractError>(ContractError::InvalidAmount),
            amount > 0 ==> (r matches Ok(s) && s.asset@ == token@ && s.spender@ == spender@
                && s.amount == amount && s.to@ == to@),
    {
        if amount <= 0 {
            return Err(ContractError::InvalidAmount);
        }
        Ok(SpendFrom { asset: token.copy(), spender: spender.copy(), amount, to: to.copy() })
    }

    /// The default spending limit and the linked external account.
    pub fn get_account_parameters(&self) -> (r: AccessSettings)
        ensures
            r.default_allowance == self.tokens.default_limit(),
            self.tokens.default_spend_limit is None ==> r.default_allowance == 0,
            opt_view(r.g_account) == opt_view(self.owner),
    {
        let default_allowance = read_default_spend_limit(&self.tokens);
        let g_account = read_owner(self);
        AccessSettings { default_allowance, g_account }
    }

    /// The linked external account, if any.
    pub fn get_owner(&self) -> (r: Option<Address>)
        ensures
            opt_view(r) == opt_view(self.owner),
    {
        read_owner(self)
    }

    /// The factory, or `FactoryNotFound`.
    pub fn get_factory(&self) -> (r: Result<Address, ContractError>)
        ensures
            match r {
                Ok(a) => opt_view(self.factory) == Some(a@),
                Err(e) => self.factory is None && e == ContractError::FactoryNotFound,
            },
    {
        match &self.factory {
            Some(a) => Ok(a.copy()),
            None => Err(ContractError::FactoryNotFound),
        }
    }
}

} // verus!
