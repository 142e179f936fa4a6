//! The identity registry contract: configuration, validators, bindings and
//! governance of one contract instance.
use vstd::prelude::*;
use vstd::string::StringSliceAdditionalSpecFns;
use crate::access::{
    AccessConfig, authenticate_admin, has_admin, opt_view, read_escrow, read_factory, write_admin,
    write_escrow, write_factory,
};
use crate::address::{Address, AddressKind};
use crate::errors::ContractError;
use crate::keyset::ByteSet;
use crate::types::{SocialPlatform, ValidatorSignature, ascii, lemma_literal_bytes};
use crate::upgrade::storage::UpgradeState;
use crate::utils::{is_canonical_userid, lemma_userid_valid_iff_canonical, userid_validation, validate_userid};
use crate::xdr::{push_xdr_address, push_xdr_string, xdr_address, xdr_string};
use super::registry::{
    IdentityMaps, read_passkey_wallet_map, read_userid_wallet_map, write_passkey_wallet_map,
    write_userid_wallet_map,
};
use super::validators::{
    Validators, read_is_validator, read_threshold, read_validators, write_add_validator,
    write_remove_validator,
};

verus! {

/// `"verify_identity_binding"`, the action name that opens a binding message.
pub open spec fn binding_action() -> Seq<char> {
    seq![
        'v', 'e', 'r', 'i', 'f', 'y', '_', 'i', 'd', 'e', 'n', 't', 'i', 't', 'y', '_', 'b',
        'i', 'n', 'd', 'i', 'n', 'g',
    ]
}

/// The message every validator signs to approve binding `(platform,
/// user_id)` to `wallet` in the registry at `contract`: the XDR of the
/// action name, the registry, the wallet, the canonical platform name and
/// the user id.
pub open spec fn binding_message(
    contract: (AddressKind, Seq<u8>),
    wallet: (AddressKind, Seq<u8>),
    p: SocialPlatform,
    user_id: Seq<u8>,
) -> Seq<u8> {
    xdr_string(ascii(binding_action())) + xdr_address(contract) + xdr_address(wallet) + xdr_string(
        ascii(p.name()),
    ) + xdr_string(user_id)
}

/// The validator keys of a list of signatures.
pub open spec fn signer_keys(sigs: Seq<ValidatorSignature>) -> Seq<Seq<u8>> {
    Seq::new(sigs.len(), |i: int| sigs[i].validator@)
}

/// Scans signers from `i` on: the first signer that is not a validator, or
/// that already signed earlier in the list, decides the error.
pub open spec fn signer_scan(vals: Set<Seq<u8>>, ks: Seq<Seq<u8>>, i: nat) -> Result<(), ContractError>
    decreases ks.len() - i,
{
    if i >= ks.len() {
        Ok(())
    } else if !vals.contains(ks[i as int]) {
        Err(ContractError::NotValidator)
    } else if ks.subrange(0, i as int).contains(ks[i as int]) {
        Err(ContractError::DuplicateValidator)
    } else {
        signer_scan(vals, ks, i + 1)
    }
}

/// Outcome of checking a binding request, in the order of the checks.
pub open spec fn binding_check(
    vals: Validators,
    platform: Seq<u8>,
    user_id: Seq<u8>,
    sigs: Seq<ValidatorSignature>,
) -> Result<SocialPlatform, ContractError> {
    match SocialPlatform::parse(platform) {
        None => Err(ContractError::PlatformNotSupported),
        Some(p) => match userid_validation(user_id) {
            Err(e) => Err(e),
            Ok(_) => if vals.count() == 0 {
                Err(ContractError::InvalidThreshold)
            } else if sigs.len() != vals.count() {
                Err(ContractError::IncorrectNumberOfSignatures)
            } else {
                match signer_scan(vals.members(), signer_keys(sigs), 0) {
                    Err(e) => Err(e),
                    Ok(_) => Ok(p),
                }
            },
        },
    }
}

/// What a successful signer scan from `i` on shows of each later signer:
/// it is a validator and did not sign earlier in the list.
proof fn lemma_signer_scan_ok(vals: Set<Seq<u8>>, ks: Seq<Seq<u8>>, i: nat)
    requires
        signer_scan(vals, ks, i) is Ok,
    ensures
        forall|j: int| i <= j < ks.len() ==> vals.contains(#[trigger] ks[j]) && !ks.subrange(0, j).contains(ks[j]),
    decreases ks.len() - i,
{
    if i < ks.len() {
        lemma_signer_scan_ok(vals, ks, i + 1);
    }
}

/// Every validator signs: a binding request that passes its checks carries
/// exactly one signature from each validator, and from no one else.
pub proof fn lemma_binding_signed_by_all_validators(
    vals: Validators,
    platform: Seq<u8>,
    user_id: Seq<u8>,
    sigs: Seq<ValidatorSignature>,
)
    requires
        vals.wf(),
        binding_check(vals, platform, user_id, sigs) is Ok,
    ensures
        signer_keys(sigs).no_duplicates(),
        signer_keys(sigs).to_set() == vals.members(),
        sigs.len() == vals.count() > 0,
{
    let ks = signer_keys(sigs);
    lemma_signer_scan_ok(vals.members(), ks, 0);
    assert forall|a: int, b: int| 0 <= a < ks.len() && 0 <= b < ks.len() && a != b implies ks[a] != ks[b] by {
        if a < b {
            assert(ks.subrange(0, b)[a] == ks[a]);
        } else {
            assert(ks.subrange(0, a)[b] == ks[b]);
        }
    }
    ks.unique_seq_to_set();
    let m = vals.set->0;
    crate::keyset::lemma_sorted_set_len(m.key_seq());
    assert(ks.to_set().subset_of(vals.members())) by {
        assert forall|k: Seq<u8>| ks.to_set().contains(k) implies vals.members().contains(k) by {
            let j = choose|j: int| 0 <= j < ks.len() && #[trigger] ks[j] == k;
        }
    }
    vstd::seq_lib::seq_to_set_is_finite(ks);
    vstd::set_lib::lemma_subset_equality(ks.to_set(), vals.members());
}

/// The identity registry contract's state.
pub struct RegistryContract {
    pub config: AccessConfig,
    pub validators: Validators,
    pub identities: IdentityMaps,
    pub upgrade: UpgradeState,
}

/// Checks that the signers are distinct validators.
fn check_signers(vals: &Validators, signatures: &Vec<ValidatorSignature>) -> (r: Result<(), ContractError>)
    ensures
        r == signer_scan(vals.members(), signer_keys(signatures@), 0),
{
    let ghost ks = signer_keys(signatures@);
    let mut seen = ByteSet::new();
    let mut i: usize = 0;
    while i < signatures.len()
        invariant
            i <= signatures@.len(),
            ks == signer_keys(signatures@),
            seen.wf(),
            seen.key_set() == ks.subrange(0, i as int).to_set(),
            signer_scan(vals.members(), ks, 0) == signer_scan(vals.members(), ks, i as nat),
        decreases signatures@.len() - i,
    {
        let validator = signatures[i].validator.as_slice();
        assert(validator@ == ks[i as int]);
        if !read_is_validator(vals, validator) {
            return Err(ContractError::NotValidator);
        }
        proof {
            assert(ks.subrange(0, i as int).to_set().contains(ks[i as int]) == ks.subrange(
                0,
                i as int,
            ).contains(ks[i as int]));
        }
        if seen.contains(validator) {
            return Err(ContractError::DuplicateValidator);
        }
        seen.insert(validator);
        proof {
            assert(ks.subrange(0, i + 1) =~= ks.subrange(0, i as int).push(ks[i as int]));
            crate::keyset::lemma_insert_to_set(ks.subrange(0, i as int), i as int, ks[i as int]);
            assert(ks.subrange(0, i as int).insert(i as int, ks[i as int]) =~= ks.subrange(0, i + 1));
        }
        i = i + 1;
    }
    Ok(())
}

/// Builds the binding message.
fn build_binding_message(
    contract: &Address,
    wallet: &Address,
    p: SocialPlatform,
    user_id: &[u8],
) -> (r: Vec<u8>)
    requires
        user_id@.len() <= u32::MAX,
    ensures
        r@ == binding_message(contract@, wallet@, p, user_id@),
{
    let action = "verify_identity_binding";
    proof {
        reveal_strlit("verify_identity_binding");
        assert(action@ =~= binding_action());
        lemma_literal_bytes(action, binding_action());
    }
    let mut message: Vec<u8> = Vec::new();
    push_xdr_string(&mut message, action.as_bytes());
    push_xdr_address(&mut message, contract);
    push_xdr_address(&mut message, wallet);
    push_xdr_string(&mut message, p.as_str().as_bytes());
    push_xdr_string(&mut message, user_id);
    assert(message@ =~= binding_message(contract@, wallet@, p, user_id@));
    message
}

impl RegistryContract {
    /// Well-formedness.
    pub open spec fn wf(&self) -> bool {
        &&& self.validators.wf()
        &&& self.identities.wf()
        &&& self.upgrade.wf()
    }

    /// A registry before its constructor ran.
    pub fn new() -> (r: Self)
        ensures
            r.wf(),
            r.config.admin is None,
    {
        RegistryContract {
            config: AccessConfig::new(),
            validators: Validators::new(),
            identities: IdentityMaps::new(),
            upgrade: UpgradeState::new(),
        }
    }

    /// Initializes the registry with its admin, factory and escrow; fails
    /// with `AlreadyInitialized`, changing nothing, once an admin is set.
    pub fn __constructor(&mut self, admin: &Address, factory: &Address, escrow: &Address) -> (r: Result<(), ContractError>)
        ensures
            old(self).config.admin is Some ==> r == Err::<(), ContractError>(
                ContractError::AlreadyInitialized,
            ) && *final(self) == *old(self),
            old(self).config.admin is None ==> {
                &&& r is Ok
                &&& opt_view(final(self).config.admin) == Some(admin@)
                &&& opt_view(final(self).config.factory) == Some(factory@)
                &&& opt_view(final(self).config.escrow) == Some(escrow@)
                &&& final(self).validators == old(self).validators
                &&& final(self).identities == old(self).identities
                &&& final(self).upgrade == old(self).upgrade
            },
    {
        if has_admin(&self.config) {
            return Err(ContractError::AlreadyInitialized);
        }
        write_admin(&mut self.config, admin);
        write_factory(&mut self.config, factory);
        write_escrow(&mut self.config, escrow);
        Ok(())
    }

    /// Checks a binding request and builds the message that each signature
    /// must verify against.
    fn binding_request_message(
        &self,
        contract: &Address,
        wallet: &Address,
        user_id: &[u8],
        platform_str: &[u8],
        signatures: &Vec<ValidatorSignature>,
    ) -> (r: Result<Vec<u8>, ContractError>)
        requires
            self.wf(),
        ensures
            match binding_check(self.validators, platform_str@, user_id@, signatures@) {
                Err(e) => r == Err::<Vec<u8>, ContractError>(e),
                Ok(p) => r matches Ok(m) && m@ == binding_message(contract@, wallet@, p, user_id@),
            },
    {
        let platform = match SocialPlatform::is_platform_supported(platform_str) {
            Ok(p) => p,
            Err(e) => return Err(e),
        };
        match validate_userid(user_id) {
            Ok(_) => {},
            Err(e) => return Err(e),
        }
        let threshold = read_threshold(&self.validators);
        if threshold == 0 {
            return Err(ContractError::InvalidThreshold);
        }
        if signatures.len() != threshold as usize {
            return Err(ContractError::IncorrectNumberOfSignatures);
        }
        match check_signers(&self.validators, signatures) {
            Ok(_) => {},
            Err(e) => return Err(e),
        }
        Ok(build_binding_message(contract, wallet, platform, user_id))
    }

    /// Binds `(platform_str, user_id)` to `wallet` on the approval of every
    /// validator, and returns the message that each signature must verify
    /// against. The request needs one signature from every validator, each
    /// validator at most once; bindings are first-write-only. Fails,
    /// changing nothing, where a check fails or the identity is already
    /// bound. The host then checks each signature over the message; a bad
    /// one traps, which undoes the whole call, binding included.
    pub fn verify_identity_binding(
        &mut self,
        e: &soroban_sdk::Env,
        contract: &Address,
        wallet: &Address,
        user_id: &[u8],
        platform_str: &[u8],
        signatures: &Vec<ValidatorSignature>,
    ) -> (r: Result<Vec<u8>, ContractError>)
        requires
            old(self).wf(),
        ensures
            final(self).wf(),
            r is Err ==> *final(self) == *old(self),
            match binding_check(old(self).validators, platform_str@, user_id@, signatures@) {
                Err(err) => r == Err::<Vec<u8>, ContractError>(err),
                Ok(p) => {
                    let k = crate::utils::userid_key_result(platform_str@, user_id@)->Ok_0;
                    if old(self).identities.userid_view().contains_key(k) {
                        r == Err::<Vec<u8>, ContractError>(ContractError::UseridAlreadyMapped)
                    } else {
                        &&& r matches Ok(m) && m@ == binding_message(contract@, wallet@, p, user_id@)
                        &&& final(self).identities.userid_view() == old(self).identities.userid_view().insert(k, wallet@)
                        &&& final(self).identities.passkey_wallets == old(self).identities.passkey_wallets
                        &&& final(self).validators == old(self).validators
                        &&& final(self).config == old(self).config
                        &&& final(self).upgrade == old(self).upgrade
                    }
                },
            },
    {
        let message = match self.binding_request_message(contract, wallet, user_id, platform_str, signatures) {
            Ok(m) => m,
            Err(err) => return Err(err),
        };
        match write_userid_wallet_map(&mut self.identities, e, platform_str, user_id, wallet) {
            Ok(_) => {},
            Err(err) => return Err(err),
        }
        Ok(message)
    }

    /// Binds `passkey` to `wallet` on the factory's behalf (the factory must
    /// authorize). Fails with `FactoryNotFound` where no factory is set, or
    /// as `write_passkey_wallet_map`.
    pub fn set_passkey_wallet_map(&mut self, e: &soroban_sdk::Env, passkey: &[u8], wallet: &Address) -> (r: Result<(), ContractError>)
        requires
            old(self).wf(),
        ensures
            final(self).wf(),
            r is Err ==> *final(self) == *old(self),
            old(self).config.factory is None ==> r == Err::<(), ContractError>(
                ContractError::FactoryNotFound,
            ),
            old(self).config.factory is Some ==> {
                let k = crate::host::sha256_digest(crate::utils::passkey_salt(passkey@));
                if old(self).identities.passkey_view().contains_key(k) {
                    r == Err::<(), ContractError>(ContractError::PasskeyAlreadyMapped)
                } else {
                    &&& r is Ok
                    &&& final(self).identities.passkey_view() == old(self).identities.passkey_view().insert(k, wallet@)
                    &&& final(self).identities.userid_wallets == old(self).identities.userid_wallets
                    &&& final(self).validators == old(self).validators
                    &&& final(self).config == old(self).config
                    &&& final(self).upgrade == old(self).upgrade
                }
            },
    {
        match read_factory(&self.config) {
            Ok(_) => {},
            Err(err) => return Err(err),
        }
        write_passkey_wallet_map(&mut self.identities, e, passkey, wallet)
    }

    /// Adds a validator (admin only).
    pub fn add_validator(&mut self, validator: &[u8]) -> (r: Result<(), ContractError>)
        requires
            old(self).wf(),
            old(self).validators.count() < u32::MAX,
        ensures
            final(self).wf(),
            r is Err ==> *final(self) == *old(self),
            old(self).config.admin is None ==> r == Err::<(), ContractError>(ContractError::AdminNotFound),
            old(self).config.admin is Some ==> {
                if old(self).validators.members().contains(validator@) {
                    r == Err::<(), ContractError>(ContractError::ValidatorAlreadyExists)
                } else {
                    &&& r is Ok
                    &&& final(self).validators.members() == old(self).validators.members().insert(validator@)
                    &&& final(self).validators.count() == old(self).validators.count() + 1
                    &&& final(self).identities == old(self).identities
                    &&& final(self).config == old(self).config
                    &&& final(self).upgrade == old(self).upgrade
                }
            },
    {
        match authenticate_admin(&self.config) {
            Ok(_) => {},
            Err(err) => return Err(err),
        }
        write_add_validator(&mut self.validators, validator)
    }

    /// Removes a validator (admin only).
    pub fn remove_validator(&mut self, validator: &[u8]) -> (r: Result<(), ContractError>)
        requires
            old(self).wf(),
        ensures
            final(self).wf(),
            r is Err ==> *final(self) == *old(self),
            old(self).config.admin is None ==> r == Err::<(), ContractError>(ContractError::AdminNotFound),
            old(self).config.admin is Some ==> {
                if !old(self).validators.members().contains(validator@) {
                    r == Err::<(), ContractError>(ContractError::ValidatorNotFound)
                } else {
                    &&& r is Ok
                    &&& final(self).validators.members() == old(self).validators.members().remove(validator@)
                    &&& final(self).identities == old(self).identities
                    &&& final(self).config == old(self).config
                    &&& final(self).upgrade == old(self).upgrade
                }
            },
    {
        match authenticate_admin(&self.config) {
            Ok(_) => {},
            Err(err) => return Err(err),
        }
        write_remove_validator(&mut self.validators, validator)
    }

    /// The validator keys in ascending order.
    pub fn get_validators(&self) -> (r: Result<Vec<Vec<u8>>, ContractError>)
        ensures
            match r {
                Ok(keys) => self.validators.set matches Some(s) && crate::keyset::views(keys@) == s.key_seq(),
                Err(e) => self.validators.set is None && e == ContractError::ValidatorNotFound,
            },
    {
        read_validators(&self.validators)
    }

    /// The wallet bound to `(platform, user_id)`, if any.
    pub fn get_wallet_by_userid(&self, e: &soroban_sdk::Env, platform: &[u8], user_id: &[u8]) -> (r: Result<Option<Address>, ContractError>)
        requires
            self.wf(),
        ensures
            match crate::utils::userid_key_result(platform@, user_id@) {
                Err(err) => r == Err::<Option<Address>, ContractError>(err),
                Ok(k) => match r {
                    Ok(Some(a)) => self.identities.userid_view().contains_key(k) && self.identities.userid_view()[k] == a@,
                    Ok(None) => !self.identities.userid_view().contains_key(k),
                    Err(_) => false,
                },
            },
    {
        read_userid_wallet_map(&self.identities, e, platform, user_id)
    }

    /// The wallet bound to `passkey`, if any.
    pub fn get_wallet_by_passkey(&self, e: &soroban_sdk::Env, passkey: &[u8]) -> (r: Result<Option<Address>, ContractError>)
        requires
            self.wf(),
        ensures
            match r {
                Ok(Some(a)) => self.identities.passkey_view().contains_key(crate::host::sha256_digest(crate::utils::passkey_salt(passkey@)))
                    && self.identities.passkey_view()[crate::host::sha256_digest(crate::utils::passkey_salt(passkey@))] == a@,
                Ok(None) => !self.identities.passkey_view().contains_key(crate::host::sha256_digest(crate::utils::passkey_salt(passkey@))),
                Err(_) => false,
            },
    {
        read_passkey_wallet_map(&self.identities, e, passkey)
    }

    /// The factory contract.
    pub fn get_factory(&self) -> (r: Result<Address, ContractError>)
        ensures
            match r {
                Ok(a) => opt_view(self.config.factory) == Some(a@),
                Err(e) => self.config.factory is None && e == ContractError::FactoryNotFound,
            },
    {
        read_factory(&self.config)
    }

    /// The escrow contract.
    pub fn get_escrow(&self) -> (r: Result<Address, ContractError>)
        ensures
            match r {
                Ok(a) => opt_view(self.config.escrow) == Some(a@),
                Err(e) => self.config.escrow is None && e == ContractError::EscrowNotFound,
            },
    {
        read_escrow(&self.config)
    }

    /// Replaces the admin (admin only).
    pub fn set_admin(&mut self, new_admin: &Address) -> (r: Result<(), ContractError>)
        ensures
            old(self).config.admin is None ==> r == Err::<(), ContractError>(ContractError::AdminNotFound) && *final(self) == *old(self),
            old(self).config.admin is Some ==> r is Ok && opt_view(final(self).config.admin) == Some(new_admin@)
                && final(self).config.factory == old(self).config.factory
                && final(self).config.escrow == old(self).config.escrow
                && final(self).validators == old(self).validators
                && final(self).identities == old(self).identities
                && final(self).upgrade == old(self).upgrade,
    {
        match authenticate_admin(&self.config) {
            Ok(_) => {},
            Err(err) => return Err(err),
        }
        write_admin(&mut self.config, new_admin);
        Ok(())
    }
}

} // verus!
