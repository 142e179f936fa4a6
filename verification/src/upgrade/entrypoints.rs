//! Governance entry points shared by the factory, registry and payments
//! contracts: the admin proposes, adds voters, cancels and applies; voters
//! vote. The admin (or the voter) must authorize each call.
use vstd::prelude::*;
use crate::access::{AccessConfig, authenticate_admin, opt_view};
use crate::address::Address;
use crate::errors::ContractError;
use super::storage::{UpgradeState, opt_bytes, parse_upgrade_type};
use super::{
    ExecutedUpgrade, UPGRADE_VOTING_DURATION, cancel_upgrade_proposal, cast_vote_result,
    create_upgrade_proposal, execute_upgrade, execute_upgrade_error, upgrade_add_voter,
    write_cast_vote,
};

verus! {

/// Applies the pending proposal (admin only); see `execute_upgrade`.
pub fn apply_upgrade(cfg: &AccessConfig, s: &mut UpgradeState, now: u64) -> (r: Result<ExecutedUpgrade, ContractError>)
    requires
        old(s).wf(),
    ensures
        final(s).wf(),
        r is Err ==> *final(s) == *old(s),
        cfg.admin is None ==> (r matches Err(e) && e == ContractError::AdminNotFound),
        cfg.admin is Some ==> match execute_upgrade_error(*old(s), now) {
            Some(e) => r matches Err(x) && x == e,
            None => r matches Ok(u) && old(s).proposal_type == Some(u.kind) && opt_bytes(old(s).future_wasm)
                == Some(u.wasm@) && final(s).voting_deadline == 0 && final(s).voted.size() == 0,
        },
        old(s).coherent() ==> final(s).coherent(),
{
    match authenticate_admin(cfg) {
        Ok(_) => {},
        Err(e) => return Err(e),
    }
    execute_upgrade(s, now)
}

/// Opens a proposal (admin only); see `create_upgrade_proposal`.
pub fn propose_upgrade(
    cfg: &AccessConfig,
    s: &mut UpgradeState,
    proposal_type: &[u8],
    new_wasm_hash: &[u8],
    now: u64,
) -> (r: Result<(), ContractError>)
    requires
        now + UPGRADE_VOTING_DURATION <= u64::MAX,
    ensures
        r is Err ==> *final(s) == *old(s),
        cfg.admin is None ==> r == Err::<(), ContractError>(ContractError::AdminNotFound),
        cfg.admin is Some && old(s).voting_deadline != 0 ==> r == Err::<(), ContractError>(
            ContractError::AnotherUpgradePending,
        ),
        cfg.admin is Some && old(s).voting_deadline == 0 ==> match parse_upgrade_type(proposal_type@) {
            None => r == Err::<(), ContractError>(ContractError::NotSupportedUpgradeType),
            Some(t) => r is Ok && final(s).voting_deadline == now + UPGRADE_VOTING_DURATION
                && final(s).proposal_type == Some(t) && opt_bytes(final(s).future_wasm) == Some(
                new_wasm_hash@,
            ) && final(s).voters == old(s).voters && final(s).voted == old(s).voted,
        },
        old(s).coherent() ==> final(s).coherent(),
{
    match authenticate_admin(cfg) {
        Ok(_) => {},
        Err(e) => return Err(e),
    }
    create_upgrade_proposal(s, proposal_type, new_wasm_hash, now)
}

/// Adds a voter (admin only); see `upgrade_add_voter`.
pub fn add_voter(cfg: &AccessConfig, s: &mut UpgradeState, voter: &Address) -> (r: Result<(), ContractError>)
    requires
        old(s).wf(),
        old(s).voters.size() < u32::MAX,
    ensures
        final(s).wf(),
        r is Err ==> *final(s) == *old(s),
        cfg.admin is None ==> r == Err::<(), ContractError>(ContractError::AdminNotFound),
        cfg.admin is Some ==> if old(s).voters.members().contains(voter@) {
            r == Err::<(), ContractError>(ContractError::AlreadyInVotersList)
        } else {
            r is Ok && final(s).voters.members() == old(s).voters.members().insert(voter@)
                && final(s).voters.size() == old(s).voters.size() + 1
                && final(s).voted == old(s).voted && final(s).voting_deadline == old(s).voting_deadline
        },
        old(s).coherent() ==> final(s).coherent(),
{
    match authenticate_admin(cfg) {
        Ok(_) => {},
        Err(e) => return Err(e),
    }
    upgrade_add_voter(s, voter)
}

/// Records `voter`'s vote (the voter must authorize); see `write_cast_vote`.
pub fn cast_vote(s: &mut UpgradeState, voter: &Address, wasm_hash: &[u8], now: u64) -> (r: Result<(), ContractError>)
    requires
        old(s).wf(),
        old(s).voted.size() < u32::MAX,
    ensures
        final(s).wf(),
        r == cast_vote_result(*old(s), voter@, wasm_hash@, now),
        r is Err ==> *final(s) == *old(s),
        r is Ok ==> final(s).voted.members() == old(s).voted.members().insert(voter@),
        old(s).coherent() ==> final(s).coherent(),
{
    write_cast_vote(s, voter, wasm_hash, now)
}

/// Cancels the pending proposal (admin only); see
/// `cancel_upgrade_proposal`.
pub fn cancel_proposal(cfg: &AccessConfig, s: &mut UpgradeState) -> (r: Result<(), ContractError>)
    ensures
        r is Err ==> *final(s) == *old(s),
        cfg.admin is None ==> r == Err::<(), ContractError>(ContractError::AdminNotFound),
        cfg.admin is Some && old(s).future_wasm is None ==> r == Err::<(), ContractError>(
            ContractError::UpgradeWasmNotFound,
        ),
        cfg.admin is Some && old(s).future_wasm is Some && old(s).proposal_type is None ==> r == Err::<
            (),
            ContractError,
        >(ContractError::UpgradeTypeNotFound),
        cfg.admin is Some && old(s).future_wasm is Some && old(s).proposal_type is Some ==> r is Ok
            && final(s).voting_deadline == 0 && final(s).future_wasm is None && final(s).proposal_type
            is None && final(s).voted.size() == 0 && final(s).voters == old(s).voters,
        old(s).coherent() ==> final(s).coherent(),
{
    match authenticate_admin(cfg) {
        Ok(_) => {},
        Err(e) => return Err(e),
    }
    match cancel_upgrade_proposal(s) {
        Ok(_) => Ok(()),
        Err(e) => Err(e),
    }
}

/// Authorizes a direct replacement of the contract's code by
/// `new_wasm_hash` (admin only): returns the admin, who must authorize, or
/// `AdminNotFound`.
pub fn upgrade(cfg: &AccessConfig, new_wasm_hash: &[u8]) -> (r: Result<Address, ContractError>)
    ensures
        match r {
            Ok(a) => opt_view(cfg.admin) == Some(a@),
            Err(e) => cfg.admin is None && e == ContractError::AdminNotFound,
        },
{
    authenticate_admin(cfg)
}

} // verus!
