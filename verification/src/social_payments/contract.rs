//! The social payments contract.
use vstd::prelude::*;
use crate::access::{AccessConfig, authenticate_admin, has_admin, opt_view, read_registry, write_admin, write_registry};
use crate::address::{Address, AddressKind, address_key};
use crate::bytes::copy_bytes;
use crate::errors::ContractError;
use crate::host::sha256_digest;
use crate::keyset::views;
use crate::tokens::{Deposit, TokenSettings, Transfer, read_is_supported_asset, read_supported_assets, write_is_supported_asset, write_not_supported_asset};
use crate::upgrade::storage::UpgradeState;
use crate::utils::{userid_key_result, userid_validation, validate_userid};
use super::data::{PaymentOutcome, PaymentResult, PaymentStatus, PaymentView, PendingPayment};
use super::payment::{
    PaymentBook, append_identity_payment, append_sender_payment, claim_error, claim_lookup,
    claim_all, claim_many, claim_one, claim_precheck, claim_scan, claimed, generate_payment_id,
    list_or_empty, opt_views, payment_id_preimage, read_identity_payment_ids, read_payment,
    read_sender_payment_ids, refund_all, refund_error, refund_many, refund_one, refund_scan,
    refunded, write_payment,
};

verus! {

/// Why a payment request is refused before the registry is consulted:
/// unsupported asset, non-positive amount, invalid user id, zero duration or
/// no registry; `None` when it may proceed.
pub open spec fn payment_precheck_error(
    tokens: TokenSettings,
    cfg: AccessConfig,
    asset: (AddressKind, Seq<u8>),
    amount: i128,
    user_id: Seq<u8>,
    duration: u64,
) -> Option<ContractError> {
    if !tokens.supported_assets.members().contains(asset) {
        Some(ContractError::UnsupportedAsset)
    } else if amount <= 0 {
        Some(ContractError::InvalidAmount)
    } else if userid_validation(user_id) is Err {
        Some(userid_validation(user_id)->Err_0)
    } else if duration == 0 {
        Some(ContractError::InvalidDuration)
    } else if cfg.registry is None {
        Some(ContractError::RegistryNotFound)
    } else {
        None
    }
}

/// The payment stored when `(platform, user_id)` has no wallet yet.
pub open spec fn new_pending(
    id: Seq<u8>,
    from: (AddressKind, Seq<u8>),
    asset: (AddressKind, Seq<u8>),
    amount: i128,
    platform: Seq<u8>,
    user_id: Seq<u8>,
    now: u64,
    duration: u64,
) -> PaymentView {
    PaymentView {
        payment_id: id,
        sender: from,
        asset: asset,
        amount: amount,
        platform: platform,
        user_id: user_id,
        created_at: now,
        expires_at: (now + duration) as u64,
        status: PaymentStatus::Pending,
        claimed_by: None,
    }
}

/// Whether a payment counts towards the claimable total of `asset` at `now`.
pub open spec fn is_claimable(p: PaymentView, asset: (AddressKind, Seq<u8>), now: u64) -> bool {
    p.status == PaymentStatus::Pending && now < p.expires_at && p.asset == asset
}

/// Sums, from the `i`-th id on, the amounts of claimable payments on top of
/// `acc`; fails on a missing payment or when the sum leaves `i128`.
pub open spec fn claimable_scan(
    pays: Map<Seq<u8>, PaymentView>,
    ids: Seq<Seq<u8>>,
    asset: (AddressKind, Seq<u8>),
    now: u64,
    i: nat,
    acc: int,
) -> Result<int, ContractError>
    decreases ids.len() - i,
{
    if i >= ids.len() {
        Ok(acc)
    } else if !pays.contains_key(ids[i as int]) {
        Err(ContractError::PaymentNotFound)
    } else if is_claimable(pays[ids[i as int]], asset, now) {
        let next = acc + pays[ids[i as int]].amount;
        if next < i128::MIN || next > i128::MAX {
            Err(ContractError::InvalidAmount)
        } else {
            claimable_scan(pays, ids, asset, now, i + 1, next)
        }
    } else {
        claimable_scan(pays, ids, asset, now, i + 1, acc)
    }
}

/// `o` takes `amount` of `asset` from `from` into the contract.
pub open spec fn takes_payment(o: PaymentOutcome, from: (AddressKind, Seq<u8>), asset: (AddressKind, Seq<u8>), amount: i128) -> bool {
    o.take.asset@ == asset && o.take.from@ == from && o.take.amount == amount
}

/// Only pending payments count: where none of the listed payments from
/// the `i`-th on is still pending (all claimed or refunded), they add
/// nothing to the claimable total.
pub proof fn lemma_processed_payments_add_nothing(
    pays: Map<Seq<u8>, PaymentView>,
    ids: Seq<Seq<u8>>,
    asset: (AddressKind, Seq<u8>),
    now: u64,
    i: nat,
    acc: int,
)
    requires
        forall|j: int| i <= j < ids.len() ==> pays.contains_key(#[trigger] ids[j]) && pays[ids[j]].status != PaymentStatus::Pending,
    ensures
        claimable_scan(pays, ids, asset, now, i, acc) == Ok::<int, ContractError>(acc),
    decreases ids.len() - i,
{
    if i < ids.len() {
        assert(pays.contains_key(ids[i as int]));
        lemma_processed_payments_add_nothing(pays, ids, asset, now, i + 1, acc);
    }
}

/// A listed payment that is pending, not yet expired and in the asset adds
/// its amount to the claimable total; any other listed payment adds
/// nothing.
pub proof fn lemma_payment_contribution(
    pays: Map<Seq<u8>, PaymentView>,
    ids: Seq<Seq<u8>>,
    asset: (AddressKind, Seq<u8>),
    now: u64,
    i: nat,
    acc: int,
)
    requires
        i < ids.len(),
        pays.contains_key(ids[i as int]),
        i128::MIN <= acc + pays[ids[i as int]].amount <= i128::MAX,
    ensures
        ({
            let p = pays[ids[i as int]];
            if p.status == PaymentStatus::Pending && now < p.expires_at && p.asset == asset {
                claimable_scan(pays, ids, asset, now, i, acc) == claimable_scan(pays, ids, asset, now, i + 1, acc + p.amount)
            } else {
                claimable_scan(pays, ids, asset, now, i, acc) == claimable_scan(pays, ids, asset, now, i + 1, acc)
            }
        }),
{
}

/// The social payments contract's state.
pub struct SocialPayments {
    pub config: AccessConfig,
    /// Number of pending payments created so far; feeds payment ids.
    pub nonce: u64,
    pub book: PaymentBook,
    pub tokens: TokenSettings,
    pub upgrade: UpgradeState,
}

/// The current payment nonce.
pub fn read_payment_nonce(c: &SocialPayments) -> (r: u64)
    ensures
        r == c.nonce,
{
    c.nonce
}

/// Sets the payment nonce.
pub fn write_payment_nonce(c: &mut SocialPayments, nonce: u64)
    ensures
        final(c).nonce == nonce,
        final(c).config == old(c).config,
        final(c).book == old(c).book,
        final(c).tokens == old(c).tokens,
        final(c).upgrade == old(c).upgrade,
{
    c.nonce = nonce;
}

impl SocialPayments {
    /// Well-formedness.
    pub open spec fn wf(&self) -> bool {
        &&& self.book.wf()
        &&& self.tokens.wf()
        &&& self.upgrade.wf()
    }

    /// A contract before its constructor ran.
    pub fn new() -> (c: Self)
        ensures
            c.wf(),
            c.config.admin is None,
            c.config.factory is None,
            c.config.registry is None,
            c.config.fee_manager is None,
            c.config.social_payments is None,
            c.config.escrow is None,
            c.nonce == 0,
            c.book.pays() == Map::<Seq<u8>, PaymentView>::empty(),
            c.book.by_identity() == Map::<Seq<u8>, Seq<Seq<u8>>>::empty(),
            c.book.by_sender() == Map::<Seq<u8>, Seq<Seq<u8>>>::empty(),
            c.tokens.allowance_expiration is None,
            c.tokens.default_spend_limit is None,
            c.tokens.spend_limits.view() == Map::<Seq<u8>, i128>::empty(),
            c.tokens.supported_assets.members() == Set::<(AddressKind, Seq<u8>)>::empty(),
            c.upgrade.voting_deadline == 0,
            c.upgrade.future_wasm is None,
            c.upgrade.proposal_type is None,
            c.upgrade.voters.members() == Set::<(AddressKind, Seq<u8>)>::empty(),
            c.upgrade.voted.members() == Set::<(AddressKind, Seq<u8>)>::empty(),
            c.upgrade.wallet_version is None,
    {
        SocialPayments {
            config: AccessConfig::new(),
            nonce: 0,
            book: PaymentBook::new(),
            tokens: TokenSettings::new(),
            upgrade: UpgradeState::new(),
        }
    }

    /// Initializes the contract with its admin and registry and a zero
    /// nonce; fails with `AlreadyInitialized`, changing nothing, once an
    /// admin is set.
    pub fn __constructor(&mut self, admin: &Address, registry: &Address) -> (r: Result<(), ContractError>)
        ensures
            old(self).config.admin is Some ==> r == Err::<(), ContractError>(
                ContractError::AlreadyInitialized,
            ) && *final(self) == *old(self),
            old(self).config.admin is None ==> {
                &&& r is Ok
                &&& opt_view(final(self).config.admin) == Some(admin@)
                &&& opt_view(final(self).config.registry) == Some(registry@)
                &&& final(self).nonce == 0
                &&& final(self).book == old(self).book
                &&& final(self).tokens == old(self).tokens
                &&& final(self).upgrade == old(self).upgrade
            },
    {
        if has_admin(&self.config) {
            return Err(ContractError::AlreadyInitialized);
        }
        write_admin(&mut self.config, admin);
        write_registry(&mut self.config, registry);
        write_payment_nonce(self, 0);
        Ok(())
    }

    /// Checks a payment request before the registry is consulted; returns
    /// the registry to ask for the wallet of `(platform, user_id)`.
    pub fn payment_precheck(&self, asset: &Address, amount: i128, user_id: &[u8], duration: u64) -> (r: Result<Address, ContractError>)
        ensures
            match payment_precheck_error(self.tokens, self.config, asset@, amount, user_id@, duration) {
                Some(e) => r == Err::<Address, ContractError>(e),
                None => r matches Ok(reg) && opt_view(self.config.registry) == Some(reg@),
            },
    {
        if !read_is_supported_asset(&self.tokens, asset) {
            return Err(ContractError::UnsupportedAsset);
        }
        if amount <= 0 {
            return Err(ContractError::InvalidAmount);
        }
        match validate_userid(user_id) {
            Ok(_) => {},
            Err(e) => return Err(e),
        }
        if duration == 0 {
            return Err(ContractError::InvalidDuration);
        }
        read_registry(&self.config)
    }

    /// Pays `amount` of `asset` from `from` to `(platform, user_id)` at time
    /// `now`, `resolved` being the wallet the registry binds the identity
    /// to. With a wallet, the payment goes straight to it (`Direct`) and the
    /// state is unchanged. Without one, the payment is held (`Pending`)
    /// under a fresh id until `now + duration`, indexed by identity and by
    /// sender, and the nonce advances. In both cases `from` pays `amount`
    /// into the contract (`take`); a direct payment then sends it on to the
    /// wallet (`send`). A failure changes nothing.
    pub fn pay_to_social(
        &mut self,
        e: &soroban_sdk::Env,
        from: &Address,
        platform: &[u8],
        user_id: &[u8],
        asset: &Address,
        amount: i128,
        duration: u64,
        resolved: &Option<Address>,
        now: u64,
    ) -> (r: Result<PaymentOutcome, ContractError>)
        requires
            old(self).wf(),
            platform@.len() <= u32::MAX,
        ensures
            final(self).wf(),
            r is Err ==> *final(self) == *old(self),
            match payment_precheck_error(old(self).tokens, old(self).config, asset@, amount, user_id@, duration) {
                Some(err) => r == Err::<PaymentOutcome, ContractError>(err),
                None => match *resolved {
                    Some(to) => {
                        &&& *final(self) == *old(self)
                        &&& r matches Ok(o) && {
                            &&& o.result is Direct && o.result->Direct_0@ == to@
                            &&& takes_payment(o, from@, asset@, amount)
                            &&& o.send is Some && o.send->Some_0.asset@ == asset@
                            &&& o.send->Some_0.to@ == to@ && o.send->Some_0.amount == amount
                        }
                    },
                    None => {
                        let id = sha256_digest(payment_id_preimage(from@, asset@, amount, platform@, user_id@, old(self).nonce));
                        if now + duration > u64::MAX {
                            r == Err::<PaymentOutcome, ContractError>(ContractError::InvalidExpiration)
                        } else if userid_key_result(platform@, user_id@) is Err {
                            r == Err::<PaymentOutcome, ContractError>(userid_key_result(platform@, user_id@)->Err_0)
                        } else if old(self).nonce == u64::MAX {
                            r == Err::<PaymentOutcome, ContractError>(ContractError::Overflow)
                        } else {
                            let k = userid_key_result(platform@, user_id@)->Ok_0;
                            &&& r matches Ok(o) && {
                                &&& o.result is Pending && o.result->Pending_0@ == id
                                &&& takes_payment(o, from@, asset@, amount)
                                &&& o.send is None
                            }
                            &&& final(self).book.pays() == old(self).book.pays().insert(id, new_pending(id, from@, asset@, amount, platform@, user_id@, now, duration))
                            &&& final(self).book.by_identity() == old(self).book.by_identity().insert(k, list_or_empty(old(self).book.by_identity(), k).push(id))
                            &&& final(self).book.by_sender() == old(self).book.by_sender().insert(address_key(from@), list_or_empty(old(self).book.by_sender(), address_key(from@)).push(id))
                            &&& final(self).nonce == old(self).nonce + 1
                            &&& final(self).config == old(self).config
                            &&& final(self).tokens == old(self).tokens
                            &&& final(self).upgrade == old(self).upgrade
                        }
                    },
                },
            },
    {
        match self.payment_precheck(asset, amount, user_id, duration) {
            Ok(_) => {},
            Err(err) => return Err(err),
        }
        let take = Deposit { asset: asset.copy(), from: from.copy(), amount };
        if let Some(to) = resolved {
            let send = Transfer { asset: asset.copy(), to: to.copy(), amount };
            return Ok(PaymentOutcome { result: PaymentResult::Direct(to.copy()), take, send: Some(send) });
        }
        let nonce = read_payment_nonce(self);
        let payment_id = generate_payment_id(e, from, asset, amount, platform, user_id, nonce);
        let created_at = now;
        let expires_at = match created_at.checked_add(duration) {
            Some(x) => x,
            None => return Err(ContractError::InvalidExpiration),
        };
        match crate::utils::userid_payment_key(e, platform, user_id) {
            Ok(_) => {},
            Err(err) => return Err(err),
        }
        let n = match nonce.checked_add(1) {
            Some(x) => x,
            None => return Err(ContractError::Overflow),
        };
        let payment = PendingPayment {
            payment_id: copy_bytes(payment_id.as_slice()),
            sender: from.copy(),
            asset: asset.copy(),
            amount,
            platform: copy_bytes(platform),
            user_id: copy_bytes(user_id),
            created_at,
            expires_at,
            status: PaymentStatus::Pending,
            claimed_by: None,
        };
        let _ = write_payment(&mut self.book, payment_id.as_slice(), &payment);
        let _ = append_identity_payment(&mut self.book, e, platform, user_id, payment_id.as_slice());
        write_payment_nonce(self, n);
        let _ = append_sender_payment(&mut self.book, from, payment_id.as_slice());
        Ok(PaymentOutcome { result: PaymentResult::Pending(payment_id), take, send: None })
    }

    /// What to look up before claiming `payment_id` at time `now`.
    pub fn claim_lookup(&self, payment_id: &[u8], now: u64) -> (r: Result<(Address, Vec<u8>, Vec<u8>), ContractError>)
        requires
            self.wf(),
        ensures
            match r {
                Ok((reg, platform, user_id)) => claim_precheck(self.book.pays(), true, payment_id@, now) is None
                    && opt_view(self.config.registry) == Some(reg@) && platform@ == self.book.pays()[payment_id@].platform
                    && user_id@ == self.book.pays()[payment_id@].user_id,
                Err(e) => claim_precheck(self.book.pays(), self.config.registry is Some, payment_id@, now) == Some(e),
            },
    {
        claim_lookup(&self.book, &self.config, payment_id, now)
    }

    /// Claims one pending payment for `claimer` (who must authorize).
    pub fn claim_payment(&mut self, claimer: &Address, payment_id: &[u8], now: u64, resolved: &Option<Address>) -> (r: Result<Transfer, ContractError>)
        requires
            old(self).wf(),
        ensures
            final(self).wf(),
            match claim_error(old(self).book.pays(), old(self).config.registry is Some, claimer@, payment_id@, now, opt_view(*resolved)) {
                Some(e) => r matches Err(x) && x == e && *final(self) == *old(self),
                None => r matches Ok(t) && {
                    let p = old(self).book.pays()[payment_id@];
                    &&& final(self).book.pays() == old(self).book.pays().insert(payment_id@, claimed(p, claimer@))
                    &&& t.to@ == claimer@ && t.asset@ == p.asset && t.amount == p.amount
                    &&& final(self).book.identity_payments == old(self).book.identity_payments
                    &&& final(self).book.sender_payments == old(self).book.sender_payments
                    &&& final(self).config == old(self).config
                    &&& final(self).nonce == old(self).nonce
                    &&& final(self).tokens == old(self).tokens
                    &&& final(self).upgrade == old(self).upgrade
                },
            },
    {
        claim_one(&mut self.book, &self.config, claimer, payment_id, now, resolved)
    }

    /// Refunds one expired payment to its `sender` (who must authorize).
    pub fn refund_payment(&mut self, sender: &Address, payment_id: &[u8], now: u64) -> (r: Result<Transfer, ContractError>)
        requires
            old(self).wf(),
        ensures
            final(self).wf(),
            match refund_error(old(self).book.pays(), sender@, payment_id@, now) {
                Some(e) => r matches Err(x) && x == e && *final(self) == *old(self),
                None => r matches Ok(t) && {
                    let p = old(self).book.pays()[payment_id@];
                    &&& final(self).book.pays() == old(self).book.pays().insert(payment_id@, refunded(p))
                    &&& t.to@ == sender@ && t.asset@ == p.asset && t.amount == p.amount
                    &&& final(self).book.identity_payments == old(self).book.identity_payments
                    &&& final(self).book.sender_payments == old(self).book.sender_payments
                    &&& final(self).config == old(self).config
                    &&& final(self).nonce == old(self).nonce
                    &&& final(self).tokens == old(self).tokens
                    &&& final(self).upgrade == old(self).upgrade
                },
            },
    {
        refund_one(&mut self.book, sender, payment_id, now)
    }

    /// Claims several pending payments for `claimer` (who must authorize),
    /// all or none, `resolved[j]` being the wallet the registry binds the
    /// identity of the `j`-th payment to.
    pub fn claim_payments(
        &mut self,
        claimer: &Address,
        payment_ids: &Vec<Vec<u8>>,
        now: u64,
        resolved: &Vec<Option<Address>>,
    ) -> (r: Result<Vec<Transfer>, ContractError>)
        requires
            old(self).wf(),
            resolved@.len() == payment_ids@.len(),
        ensures
            final(self).wf(),
            match claim_scan(old(self).book.pays(), old(self).config.registry is Some, claimer@, views(payment_ids@), opt_views(resolved@), now, 0) {
                Some(e) => r == Err::<Vec<Transfer>, ContractError>(e) && *final(self) == *old(self),
                None => r matches Ok(ts) && {
                    &&& final(self).book.pays() == claim_all(old(self).book.pays(), claimer@, views(payment_ids@))
                    &&& ts@.len() == payment_ids@.len()
                    &&& forall|j: int| 0 <= j < ts@.len() ==> (#[trigger] ts@[j]).to@ == claimer@
                        && ts@[j].asset@ == old(self).book.pays()[payment_ids@[j]@].asset
                        && ts@[j].amount == old(self).book.pays()[payment_ids@[j]@].amount
                    &&& final(self).book.identity_payments == old(self).book.identity_payments
                    &&& final(self).book.sender_payments == old(self).book.sender_payments
                    &&& final(self).config == old(self).config
                    &&& final(self).nonce == old(self).nonce
                    &&& final(self).tokens == old(self).tokens
                    &&& final(self).upgrade == old(self).upgrade
                },
            },
    {
        claim_many(&mut self.book, &self.config, claimer, payment_ids, resolved, now)
    }

    /// Refunds several expired payments to their `sender` (who must
    /// authorize), all or none.
    pub fn refund_payments(&mut self, sender: &Address, payment_ids: &Vec<Vec<u8>>, now: u64) -> (r: Result<Vec<Transfer>, ContractError>)
        requires
            old(self).wf(),
        ensures
            final(self).wf(),
            match refund_scan(old(self).book.pays(), sender@, views(payment_ids@), now, 0) {
                Some(e) => r == Err::<Vec<Transfer>, ContractError>(e) && *final(self) == *old(self),
                None => r matches Ok(ts) && {
                    &&& final(self).book.pays() == refund_all(old(self).book.pays(), views(payment_ids@))
                    &&& ts@.len() == payment_ids@.len()
                    &&& forall|j: int| 0 <= j < ts@.len() ==> (#[trigger] ts@[j]).to@ == sender@
                        && ts@[j].asset@ == old(self).book.pays()[payment_ids@[j]@].asset
                        && ts@[j].amount == old(self).book.pays()[payment_ids@[j]@].amount
                    &&& final(self).book.identity_payments == old(self).book.identity_payments
                    &&& final(self).book.sender_payments == old(self).book.sender_payments
                    &&& final(self).config == old(self).config
                    &&& final(self).nonce == old(self).nonce
                    &&& final(self).tokens == old(self).tokens
                    &&& final(self).upgrade == old(self).upgrade
                },
            },
    {
        refund_many(&mut self.book, sender, payment_ids, now)
    }

    /// A stored payment.
    pub fn get_payment(&self, payment_id: &[u8]) -> (r: Result<PendingPayment, ContractError>)
        requires
            self.wf(),
        ensures
            match r {
                Ok(p) => self.book.pays().contains_key(payment_id@) && p@ == self.book.pays()[payment_id@],
                Err(e) => !self.book.pays().contains_key(payment_id@) && e == ContractError::PaymentNotFound,
            },
    {
        read_payment(&self.book, payment_id)
    }

    /// The number of pending payments created so far.
    pub fn get_nonce(&self) -> (r: u64)
        ensures
            r == self.nonce,
    {
        read_payment_nonce(self)
    }

    /// Ids of the payments made to `(platform, user_id)`, oldest first.
    pub fn get_identity_payments(&self, e: &soroban_sdk::Env, platform: &[u8], user_id: &[u8]) -> (r: Result<Vec<Vec<u8>>, ContractError>)
        requires
            self.wf(),
        ensures
            match userid_key_result(platform@, user_id@) {
                Err(err) => r == Err::<Vec<Vec<u8>>, ContractError>(err),
                Ok(k) => r matches Ok(ids) && views(ids@) == list_or_empty(self.book.by_identity(), k),
            },
    {
        read_identity_payment_ids(&self.book, e, platform, user_id)
    }

    /// Ids of the payments made by `sender`, oldest first.
    pub fn get_sender_payments(&self, sender: &Address) -> (r: Result<Vec<Vec<u8>>, ContractError>)
        requires
            self.wf(),
        ensures
            r matches Ok(ids) && views(ids@) == list_or_empty(self.book.by_sender(), address_key(sender@)),
    {
        read_sender_payment_ids(&self.book, sender)
    }

    /// Total amount of `asset` that `(platform, user_id)` can claim at time
    /// `now`: the sum over its pending, unexpired payments in `asset`. Fails
    /// where the identity is not accepted, a listed payment is missing, or
    /// the sum overflows (`InvalidAmount`).
    pub fn get_claimable_total(
        &self,
        e: &soroban_sdk::Env,
        platform: &[u8],
        user_id: &[u8],
        asset: &Address,
        now: u64,
    ) -> (r: Result<i128, ContractError>)
        requires
            self.wf(),
        ensures
            match userid_key_result(platform@, user_id@) {
                Err(err) => r == Err::<i128, ContractError>(err),
                Ok(k) => match claimable_scan(self.book.pays(), list_or_empty(self.book.by_identity(), k), asset@, now, 0, 0) {
                    Ok(total) => r == Ok::<i128, ContractError>(total as i128),
                    Err(err) => r == Err::<i128, ContractError>(err),
                },
            },
    {
        let ids = match read_identity_payment_ids(&self.book, e, platform, user_id) {
            Ok(v) => v,
            Err(err) => return Err(err),
        };
        let ghost vids = views(ids@);
        let ghost pays = self.book.pays();
        let mut total: i128 = 0;
        let mut i: usize = 0;
        while i < ids.len()
            invariant
                i <= ids@.len(),
                vids == views(ids@),
                userid_key_result(platform@, user_id@) is Ok,
                vids == list_or_empty(self.book.by_identity(), userid_key_result(platform@, user_id@)->Ok_0),
                pays == self.book.pays(),
                self.wf(),
                claimable_scan(pays, vids, asset@, now, 0, 0) == claimable_scan(pays, vids, asset@, now, i as nat, total as int),
            decreases ids@.len() - i,
        {
            assert(ids@[i as int]@ == vids[i as int]);
            let payment = match read_payment(&self.book, ids[i].as_slice()) {
                Ok(p) => p,
                Err(err) => return Err(err),
            };
            if payment.status == PaymentStatus::Pending && now < payment.expires_at && payment.asset.same(asset) {
                total = match total.checked_add(payment.amount) {
                    Some(t) => t,
                    None => return Err(ContractError::InvalidAmount),
                };
            }
            i = i + 1;
        }
        Ok(total)
    }

    /// The supported assets, in ledger order.
    pub fn get_supported_assets(&self) -> (r: Vec<Address>)
        requires
            self.wf(),
        ensures
            r@.len() == self.tokens.supported_assets.ordered().len(),
            forall|i: int| 0 <= i < r@.len() ==> (#[trigger] r@[i])@ == self.tokens.supported_assets.ordered()[i],
            crate::address::lists_exactly(r@, self.tokens.supported_assets.members()),
    {
        read_supported_assets(&self.tokens)
    }

    /// Adds a supported asset (admin only).
    pub fn add_supported_asset(&mut self, asset: &Address) -> (r: Result<(), ContractError>)
        requires
            old(self).wf(),
        ensures
            final(self).wf(),
            r is Err ==> *final(self) == *old(self),
            old(self).config.admin is None ==> r == Err::<(), ContractError>(ContractError::AdminNotFound),
            old(self).config.admin is Some ==> if old(self).tokens.supported_assets.members().contains(asset@) {
                r == Err::<(), ContractError>(ContractError::AssetAlreadySupported)
            } else {
                r is Ok && final(self).tokens.supported_assets.members() == old(self).tokens.supported_assets.members().insert(asset@)
            },
    {
        match authenticate_admin(&self.config) {
            Ok(_) => {},
            Err(err) => return Err(err),
        }
        write_is_supported_asset(&mut self.tokens, asset)
    }

    /// Removes a supported asset (admin only).
    pub fn remove_supported_asset(&mut self, asset: &Address) -> (r: Result<(), ContractError>)
        requires
            old(self).wf(),
        ensures
            final(self).wf(),
            r is Err ==> *final(self) == *old(self),
            old(self).config.admin is None ==> r == Err::<(), ContractError>(ContractError::AdminNotFound),
            old(self).config.admin is Some ==> if !old(self).tokens.supported_assets.members().contains(asset@) {
                r == Err::<(), ContractError>(ContractError::AssetNotSupported)
            } else {
                r is Ok && final(self).tokens.supported_assets.members() == old(self).tokens.supported_assets.members().remove(asset@)
            },
    {
        match authenticate_admin(&self.config) {
            Ok(_) => {},
            Err(err) => return Err(err),
        }
        write_not_supported_asset(&mut self.tokens, asset)
    }

    /// Replaces the admin (admin only).
    pub fn set_admin(&mut self, new_admin: &Address) -> (r: Result<(), ContractError>)
        ensures
            old(self).config.admin is None ==> r == Err::<(), ContractError>(ContractError::AdminNotFound) && *final(self) == *old(self),
            old(self).config.admin is Some ==> r is Ok && opt_view(final(self).config.admin) == Some(new_admin@)
                && final(self).config.registry == old(self).config.registry
                && final(self).nonce == old(self).nonce
                && final(self).book == old(self).book
                && final(self).tokens == old(self).tokens
                && final(self).upgrade == old(self).upgrade,
    {
        match authenticate_admin(&self.config) {
            Ok(_) => {},
            Err(err) => return Err(err),
        }
        write_admin(&mut self.config, new_admin);
        Ok(())
    }
}

} // verus!
