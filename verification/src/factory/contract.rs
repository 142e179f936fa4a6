//! The factory contract's state and entry points.
use vstd::prelude::*;
use crate::access::{
    AccessConfig, authenticate_admin, has_admin, opt_view, read_admin, read_fee_manager,
    read_registry, write_admin, write_fee_manager, write_registry,
};
use crate::address::Address;
use crate::bytes::copy_bytes;
use crate::errors::ContractError;
use crate::bls::{bls_aggregate, g1_point};
use crate::host::sha256_digest;
use crate::keyset::views;
use crate::upgrade::storage::{UpgradeState, opt_bytes};
use crate::upgrade::{get_wallet_version, init_wallet_version, upgrade_add_voter};
use super::wallet_factory::{
    BlsKeyWithProof, FactoryError, extract_bls_keys, pop_keys, pop_salt_preimage, pop_scan,
    pops_encoded, read_pop_salt, validate_pops,
};

verus! {

/// A wallet to deploy: code, deployment salt, and constructor arguments
/// (passkey, BLS keys, registry, social payments router, fee manager). Each
/// key's proof of possession must verify over `salt` before deployment.
pub struct WalletDeployment {
    pub wasm: Vec<u8>,
    pub salt: Vec<u8>,
    pub passkey: Vec<u8>,
    pub bls_keys: Vec<Vec<u8>>,
    pub registry: Address,
    pub social_payments: Address,
    pub fee_manager: Address,
}

/// The factory contract's state.
pub struct FactoryContract {
    pub config: AccessConfig,
    pub upgrade: UpgradeState,
}

impl FactoryContract {
    /// Well-formedness.
    pub open spec fn wf(&self) -> bool {
        self.upgrade.wf()
    }

    /// A factory before its constructor ran.
    pub fn new() -> (f: Self)
        ensures
            f.wf(),
            f.config.admin is None,
            f.upgrade.wallet_version is None,
            f.upgrade.voters.members() == Set::<(crate::address::AddressKind, Seq<u8>)>::empty(),
            f.upgrade.voters.size() == 0,
            f.config.registry is None,
            f.config.fee_manager is None,
            f.config.social_payments is None,
    {
        FactoryContract { config: AccessConfig::new(), upgrade: UpgradeState::new() }
    }

    /// Initializes the factory: admin, registry, fee manager, the initial
    /// wallet version, and the admin as the first voter. Fails, changing
    /// nothing, with `AlreadyInitialized` once an admin or a wallet version
    /// is set, or with `AlreadyInVotersList` where the admin already votes.
    pub fn __constructor(
        &mut self,
        admin: &Address,
        registry: &Address,
        fee_manager: &Address,
        wasm: &[u8],
    ) -> (r: Result<(), ContractError>)
        requires
            old(self).wf(),
            old(self).upgrade.voters.size() < u32::MAX,
        ensures
            final(self).wf(),
            r is Err ==> *final(self) == *old(self),
            old(self).config.admin is Some || old(self).upgrade.wallet_version is Some ==> r == Err::<
                (),
                ContractError,
            >(ContractError::AlreadyInitialized),
            old(self).config.admin is None && old(self).upgrade.wallet_version is None
                && old(self).upgrade.voters.members().contains(admin@) ==> r == Err::<(), ContractError>(
                ContractError::AlreadyInVotersList,
            ),
            r is Ok ==> {
                &&& opt_view(final(self).config.admin) == Some(admin@)
                &&& opt_view(final(self).config.registry) == Some(registry@)
                &&& opt_view(final(self).config.fee_manager) == Some(fee_manager@)
                &&& opt_bytes(final(self).upgrade.wallet_version) == Some(wasm@)
                &&& final(self).upgrade.voters.members() == old(self).upgrade.voters.members().insert(admin@)
                &&& final(self).upgrade.voters.size() == old(self).upgrade.voters.size() + 1
                &&& final(self).upgrade.voting_deadline == old(self).upgrade.voting_deadline
                &&& final(self).upgrade.voted == old(self).upgrade.voted
            },
            old(self).config.admin is None && old(self).upgrade.wallet_version is None
                && !old(self).upgrade.voters.members().contains(admin@) ==> r is Ok,
    {
        if has_admin(&self.config) {
            return Err(ContractError::AlreadyInitialized);
        }
        if self.upgrade.wallet_version.is_some() {
            return Err(ContractError::AlreadyInitialized);
        }
        if crate::upgrade::voters::read_is_voter(&self.upgrade, admin) {
            return Err(ContractError::AlreadyInVotersList);
        }
        write_admin(&mut self.config, admin);
        write_registry(&mut self.config, registry);
        write_fee_manager(&mut self.config, fee_manager);
        let _ = init_wallet_version(&mut self.upgrade, wasm);
        let _ = upgrade_add_voter(&mut self.upgrade, admin);
        Ok(())
    }

    /// `d` deploys a wallet for `passkey` and the keys of `pops`: from the
    /// approved wallet version, at the salt hashing the passkey and the
    /// keys' aggregate, wired to the configured registry, social payments
    /// router and fee manager.
    pub open spec fn is_deployment_plan(&self, passkey: Seq<u8>, pops: Seq<BlsKeyWithProof>, d: WalletDeployment) -> bool {
        &&& opt_bytes(self.upgrade.wallet_version) == Some(d.wasm@)
        &&& d.salt@ == sha256_digest(pop_salt_preimage(passkey, bls_aggregate(pop_keys(pops))))
        &&& d.passkey@ == passkey
        &&& views(d.bls_keys@) == pop_keys(pops)
        &&& opt_view(self.config.registry) == Some(d.registry@)
        &&& opt_view(self.config.social_payments) == Some(d.social_payments@)
        &&& opt_view(self.config.fee_manager) == Some(d.fee_manager@)
    }

    /// What creating a wallet for `passkey` and `pops` gives, the proofs
    /// being checked with domain tag `dst` and negated generator `neg_g1`:
    /// `MissingBlsKeys` without keys; otherwise, over the deployment salt,
    /// `None` where the host would refuse a proof's points (it traps),
    /// `InvalidPoPSignature` where a proof fails, and the deployment plan
    /// when every proof verifies.
    pub open spec fn creates_wallet(
        &self,
        passkey: Seq<u8>,
        pops: Seq<BlsKeyWithProof>,
        dst: Seq<u8>,
        neg_g1: Seq<u8>,
        r: Option<Result<WalletDeployment, FactoryError>>,
    ) -> bool {
        if pops.len() == 0 {
            r == Some(Err::<WalletDeployment, FactoryError>(FactoryError::MissingBlsKeys))
        } else {
            let salt = sha256_digest(pop_salt_preimage(passkey, bls_aggregate(pop_keys(pops))));
            match pop_scan(pops, salt, dst, neg_g1, 0) {
                None => r is None,
                Some(false) => r == Some(Err::<WalletDeployment, FactoryError>(FactoryError::InvalidPoPSignature)),
                Some(true) => r matches Some(Ok(d)) && self.is_deployment_plan(passkey, pops, d),
            }
        }
    }

    /// Creates a wallet for `passkey` and its BLS keys with proofs: see
    /// `write_create_wallet`.
    pub fn create_wallet(
        &self,
        e: &soroban_sdk::Env,
        passkey: &[u8],
        bls_keys: &Vec<BlsKeyWithProof>,
        dst: &[u8],
        neg_g1: &[u8],
    ) -> (r: Option<Result<WalletDeployment, FactoryError>>)
        requires
            self.upgrade.wallet_version is Some,
            self.config.registry is Some,
            self.config.social_payments is Some,
            self.config.fee_manager is Some,
            passkey@.len() <= u32::MAX,
            pops_encoded(bls_keys@),
            g1_point(neg_g1@),
            0 < dst@.len() <= 255,
        ensures
            self.creates_wallet(passkey@, bls_keys@, dst@, neg_g1@, r),
    {
        self.write_create_wallet(e, passkey, bls_keys, dst, neg_g1)
    }

    /// Plans the deployment of a wallet for `passkey` whose BLS keys come
    /// with proofs of possession. The wallet is deployed from the approved
    /// wallet version at the salt committing to the passkey and to the
    /// aggregate of the keys, once each key's proof over that salt has
    /// verified. Fails with `MissingBlsKeys` when no key is given and with
    /// `InvalidPoPSignature` at the first proof that fails; gives `None`
    /// where the host would refuse a proof's points.
    pub fn write_create_wallet(
        &self,
        e: &soroban_sdk::Env,
        passkey: &[u8],
        bls_keys_pop: &Vec<BlsKeyWithProof>,
        dst: &[u8],
        neg_g1: &[u8],
    ) -> (r: Option<Result<WalletDeployment, FactoryError>>)
        requires
            self.upgrade.wallet_version is Some,
            self.config.registry is Some,
            self.config.social_payments is Some,
            self.config.fee_manager is Some,
            passkey@.len() <= u32::MAX,
            pops_encoded(bls_keys_pop@),
            g1_point(neg_g1@),
            0 < dst@.len() <= 255,
        ensures
            self.creates_wallet(passkey@, bls_keys_pop@, dst@, neg_g1@, r),
    {
        let wasm = match get_wallet_version(&self.upgrade) {
            Ok(w) => w,
            Err(_) => return Some(Err(FactoryError::MissingBlsKeys)),
        };
        let bls_keys = extract_bls_keys(bls_keys_pop);
        assert(views(bls_keys@).len() == pop_keys(bls_keys_pop@).len());
        assert forall|i: int| 0 <= i < bls_keys@.len() implies g1_point(#[trigger] bls_keys@[i]@) by {
            assert(views(bls_keys@)[i] == pop_keys(bls_keys_pop@)[i]);
            assert(g1_point(bls_keys_pop@[i].key@));
        }
        let salt = match read_pop_salt(e, passkey, &bls_keys) {
            Ok(s) => s,
            Err(err) => return Some(Err(err)),
        };
        match validate_pops(e, salt.as_slice(), bls_keys_pop, dst, neg_g1) {
            None => return None,
            Some(Err(err)) => return Some(Err(err)),
            Some(Ok(_)) => {},
        }
        let registry = match &self.config.registry {
            Some(a) => a.copy(),
            None => return Some(Err(FactoryError::MissingBlsKeys)),
        };
        let social_payments = match &self.config.social_payments {
            Some(a) => a.copy(),
            None => return Some(Err(FactoryError::MissingBlsKeys)),
        };
        let fee_manager = match &self.config.fee_manager {
            Some(a) => a.copy(),
            None => return Some(Err(FactoryError::MissingBlsKeys)),
        };
        Some(Ok(WalletDeployment {
            wasm,
            salt,
            passkey: copy_bytes(passkey),
            bls_keys,
            registry,
            social_payments,
            fee_manager,
        }))
    }

    /// The approved wallet version.
    pub fn get_wallet_version(&self) -> (r: Result<Vec<u8>, ContractError>)
        ensures
            match r {
                Ok(w) => opt_bytes(self.upgrade.wallet_version) == Some(w@),
                Err(e) => self.upgrade.wallet_version is None && e == ContractError::WalletWasmNotFound,
            },
    {
        get_wallet_version(&self.upgrade)
    }

    /// The admin.
    pub fn get_admin(&self) -> (r: Result<Address, ContractError>)
        ensures
            match r {
                Ok(a) => opt_view(self.config.admin) == Some(a@),
                Err(e) => self.config.admin is None && e == ContractError::AdminNotFound,
            },
    {
        read_admin(&self.config)
    }

    /// The registry contract.
    pub fn get_registry(&self) -> (r: Result<Address, ContractError>)
        ensures
            match r {
                Ok(a) => opt_view(self.config.registry) == Some(a@),
                Err(e) => self.config.registry is None && e == ContractError::RegistryNotFound,
            },
    {
        read_registry(&self.config)
    }

    /// The fee manager contract.
    pub fn get_fee_manager(&self) -> (r: Result<Address, ContractError>)
        ensures
            match r {
                Ok(a) => opt_view(self.config.fee_manager) == Some(a@),
                Err(e) => self.config.fee_manager is None && e == ContractError::FeeManagerNotFound,
            },
    {
        read_fee_manager(&self.config)
    }

    /// Replaces the admin (admin only).
    pub fn update_admin(&mut self, new_admin: &Address) -> (r: Result<(), ContractError>)
        ensures
            old(self).config.admin is None ==> r == Err::<(), ContractError>(ContractError::AdminNotFound) && *final(self) == *old(self),
            old(self).config.admin is Some ==> r is Ok && opt_view(final(self).config.admin) == Some(new_admin@)
                && final(self).config.registry == old(self).config.registry
                && final(self).config.fee_manager == old(self).config.fee_manager
                && final(self).upgrade == old(self).upgrade,
    {
        match authenticate_admin(&self.config) {
            Ok(_) => {},
            Err(err) => return Err(err),
        }
        write_admin(&mut self.config, new_admin);
        Ok(())
    }

    /// Replaces the registry (admin only).
    pub fn update_registry(&mut self, registry: &Address) -> (r: Result<(), ContractError>)
        ensures
            old(self).config.admin is None ==> r == Err::<(), ContractError>(ContractError::AdminNotFound) && *final(self) == *old(self),
            old(self).config.admin is Some ==> r is Ok && opt_view(final(self).config.registry) == Some(registry@)
                && final(self).config.admin == old(self).config.admin
                && final(self).config.fee_manager == old(self).config.fee_manager
                && final(self).upgrade == old(self).upgrade,
    {
        match authenticate_admin(&self.config) {
            Ok(_) => {},
            Err(err) => return Err(err),
        }
        write_registry(&mut self.config, registry);
        Ok(())
    }

    /// Replaces the fee manager (admin only).
    pub fn update_fee_manager(&mut self, fee_manager: &Address) -> (r: Result<(), ContractError>)
        ensures
            old(self).config.admin is None ==> r == Err::<(), ContractError>(ContractError::AdminNotFound) && *final(self) == *old(self),
            old(self).config.admin is Some ==> r is Ok && opt_view(final(self).config.fee_manager) == Some(fee_manager@)
                && final(self).config.admin == old(self).config.admin
                && final(self).config.registry == old(self).config.registry
                && final(self).upgrade == old(self).upgrade,
    {
        match authenticate_admin(&self.config) {
            Ok(_) => {},
            Err(err) => return Err(err),
        }
        write_fee_manager(&mut self.config, fee_manager);
        Ok(())
    }
}

} // verus!
