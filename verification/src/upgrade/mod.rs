//! Upgrade governance: one proposal at a time, voted on by approved voters
//! until its deadline, then executed or cancelled.
use vstd::prelude::*;
use crate::address::{Address, AddressKind};
use crate::bytes::{bytes_eq, copy_bytes};
use crate::errors::ContractError;
use crate::types::UpgradeType;

pub mod storage;
pub mod voters;
pub mod entrypoints;

use storage::{
    UpgradeState, clear_pending_upgrade_state, get_future_wasm, opt_bytes, parse_upgrade_type,
    read_wallet_version, write_future_wasm, write_wallet_version,
};
use voters::{passing_threshold, read_has_upgrade_passed, read_is_voter, write_add_voter};

verus! {

/// Length of a voting period, in seconds.
pub const UPGRADE_VOTING_DURATION: u64 = 604800;

/// An executed proposal: its kind and WASM hash. For `Upgrade` the contract's
/// own code is then replaced by the hash; for `WalletVersion` the hash has
/// become the approved wallet version.
pub struct ExecutedUpgrade {
    pub kind: UpgradeType,
    pub wasm: Vec<u8>,
}

/// Sets the initial wallet version; fails with `AlreadyInitialized`, leaving
/// the state unchanged, where one is already set.
pub fn init_wallet_version(s: &mut UpgradeState, wallet_version: &[u8]) -> (r: Result<(), ContractError>)
    ensures
        old(s).wallet_version is Some ==> r == Err::<(), ContractError>(
            ContractError::AlreadyInitialized,
        ) && *final(s) == *old(s),
        old(s).wallet_version is None ==> r is Ok && opt_bytes(final(s).wallet_version) == Some(
            wallet_version@,
        ),
        final(s).voting_deadline == old(s).voting_deadline,
        final(s).future_wasm == old(s).future_wasm,
        final(s).proposal_type == old(s).proposal_type,
        final(s).voters == old(s).voters,
        final(s).voted == old(s).voted,
{
    if s.wallet_version.is_some() {
        return Err(ContractError::AlreadyInitialized);
    }
    write_wallet_version(s, wallet_version)
}

/// Opens a proposal of kind `proposal_type` for `wasm_hash`, voted on until
/// `now + UPGRADE_VOTING_DURATION`. Fails, leaving the state unchanged, with
/// `AnotherUpgradePending` while a proposal is pending, or with
/// `NotSupportedUpgradeType` for an unknown kind.
pub fn create_upgrade_proposal(
    s: &mut UpgradeState,
    proposal_type: &[u8],
    wasm_hash: &[u8],
    now: u64,
) -> (r: Result<(), ContractError>)
    requires
        now + UPGRADE_VOTING_DURATION <= u64::MAX,
    ensures
        old(s).voting_deadline != 0 ==> r == Err::<(), ContractError>(
            ContractError::AnotherUpgradePending,
        ),
        old(s).voting_deadline == 0 && parse_upgrade_type(proposal_type@) is None ==> r == Err::<
            (),
            ContractError,
        >(ContractError::NotSupportedUpgradeType),
        r is Err ==> *final(s) == *old(s),
        old(s).voting_deadline == 0 && parse_upgrade_type(proposal_type@) is Some ==> {
            &&& r is Ok
            &&& final(s).voting_deadline == now + UPGRADE_VOTING_DURATION
            &&& final(s).proposal_type == parse_upgrade_type(proposal_type@)
            &&& opt_bytes(final(s).future_wasm) == Some(wasm_hash@)
            &&& final(s).voters == old(s).voters
            &&& final(s).voted == old(s).voted
            &&& final(s).wallet_version == old(s).wallet_version
        },
        old(s).coherent() ==> final(s).coherent(),
{
    if s.voting_deadline != 0 {
        return Err(ContractError::AnotherUpgradePending);
    }
    match write_future_wasm(s, proposal_type, wasm_hash) {
        Ok(_) => {},
        Err(e) => return Err(e),
    }
    s.voting_deadline = now + UPGRADE_VOTING_DURATION;
    Ok(())
}

/// Outcome of a vote, in the order in which the conditions are checked.
pub open spec fn cast_vote_result(s: UpgradeState, voter: (AddressKind, Seq<u8>), wasm_hash: Seq<u8>, now: u64) -> Result<(), ContractError> {
    if s.voting_deadline == 0 {
        Err(ContractError::NoPendingUpgradeAction)
    } else if now > s.voting_deadline {
        Err(ContractError::VotingClosed)
    } else if !s.voters.members().contains(voter) {
        Err(ContractError::NotInVotersList)
    } else if s.future_wasm is None {
        Err(ContractError::UpgradeWasmNotFound)
    } else if s.proposal_type is None {
        Err(ContractError::UpgradeTypeNotFound)
    } else if opt_bytes(s.future_wasm) != Some(wasm_hash) {
        Err(ContractError::InvalidUpgradeHash)
    } else if s.voted.members().contains(voter) {
        Err(ContractError::AlreadyVoted)
    } else {
        Ok(())
    }
}

/// Records `voter`'s vote for the pending proposal `wasm_hash` at time `now`.
/// A voter votes at most once; only approved voters vote, and only until the
/// deadline. A failed vote leaves the state unchanged.
pub fn write_cast_vote(s: &mut UpgradeState, voter: &Address, wasm_hash: &[u8], now: u64) -> (r: Result<(), ContractError>)
    requires
        old(s).wf(),
        old(s).voted.size() < u32::MAX,
    ensures
        final(s).wf(),
        r == cast_vote_result(*old(s), voter@, wasm_hash@, now),
        r is Err ==> *final(s) == *old(s),
        r is Ok ==> {
            &&& final(s).voted.members() == old(s).voted.members().insert(voter@)
            &&& final(s).voted.size() == old(s).voted.size() + 1
            &&& final(s).voting_deadline == old(s).voting_deadline
            &&& final(s).future_wasm == old(s).future_wasm
            &&& final(s).proposal_type == old(s).proposal_type
            &&& final(s).voters == old(s).voters
            &&& final(s).wallet_version == old(s).wallet_version
        },
        old(s).coherent() ==> final(s).coherent(),
{
    let deadline = s.voting_deadline;
    if deadline == 0 {
        return Err(ContractError::NoPendingUpgradeAction);
    }
    if now > deadline {
        return Err(ContractError::VotingClosed);
    }
    if !read_is_voter(s, voter) {
        return Err(ContractError::NotInVotersList);
    }
    let (_, future_wasm_hash) = match get_future_wasm(s) {
        Ok(p) => p,
        Err(e) => return Err(e),
    };
    if !bytes_eq(future_wasm_hash.as_slice(), wasm_hash) {
        return Err(ContractError::InvalidUpgradeHash);
    }
    if s.voted.contains(voter) {
        return Err(ContractError::AlreadyVoted);
    }
    s.voted.insert(voter);
    Ok(())
}

/// One vote per voter: once `voter`'s vote on a proposal is recorded, every
/// further vote of `voter` is refused, whatever hash and time it carries.
pub proof fn lemma_vote_once(
    s: UpgradeState,
    t: UpgradeState,
    voter: (AddressKind, Seq<u8>),
    wasm_hash: Seq<u8>,
    now: u64,
    again_hash: Seq<u8>,
    again: u64,
)
    requires
        cast_vote_result(s, voter, wasm_hash, now) is Ok,
        t.voted.members() == s.voted.members().insert(voter),
    ensures
        cast_vote_result(t, voter, again_hash, again) is Err,
{
}

/// A proposal that is not pending (never opened, executed or cancelled)
/// takes no vote and cannot be executed.
pub proof fn lemma_no_pending_proposal(
    s: UpgradeState,
    voter: (AddressKind, Seq<u8>),
    wasm_hash: Seq<u8>,
    now: u64,
)
    requires
        s.voting_deadline == 0,
    ensures
        cast_vote_result(s, voter, wasm_hash, now) == Err::<(), ContractError>(
            ContractError::NoPendingUpgradeAction,
        ),
        execute_upgrade_error(s, now) == Some(ContractError::NoPendingUpgradeAction),
{
}

/// Voting and execution never overlap: at a moment when a vote is
/// accepted, the proposal cannot be executed.
pub proof fn lemma_vote_execute_exclusive(
    s: UpgradeState,
    voter: (AddressKind, Seq<u8>),
    wasm_hash: Seq<u8>,
    now: u64,
)
    requires
        cast_vote_result(s, voter, wasm_hash, now) is Ok,
    ensures
        execute_upgrade_error(s, now) == Some(ContractError::VotingStillOngoing),
{
}

/// Outcome of executing the pending proposal at time `now`. Voting ends
/// once the deadline has passed: votes are taken up to the deadline itself.
pub open spec fn execute_upgrade_error(s: UpgradeState, now: u64) -> Option<ContractError> {
    if s.voting_deadline == 0 {
        Some(ContractError::NoPendingUpgradeAction)
    } else if now <= s.voting_deadline {
        Some(ContractError::VotingStillOngoing)
    } else if s.future_wasm is None {
        Some(ContractError::UpgradeWasmNotFound)
    } else if s.proposal_type is None {
        Some(ContractError::UpgradeTypeNotFound)
    } else if s.voters.size() == 0 {
        Some(ContractError::NoVoters)
    } else if s.voters.size() * voters::VOTING_THRESHOLD + 99 > u32::MAX {
        Some(ContractError::Overflow)
    } else if s.voted.size() < passing_threshold(s.voters.size()) {
        Some(ContractError::DidNotPass)
    } else {
        None
    }
}

/// Executes the pending proposal once voting has ended and it has passed:
/// clears the pending proposal and, for a wallet-version proposal, makes its
/// hash the approved wallet version. A failure leaves the state unchanged.
pub fn execute_upgrade(s: &mut UpgradeState, now: u64) -> (r: Result<ExecutedUpgrade, ContractError>)
    requires
        old(s).wf(),
    ensures
        final(s).wf(),
        match execute_upgrade_error(*old(s), now) {
            Some(e) => r matches Err(x) && x == e,
            None => r is Ok,
        },
        r is Err ==> *final(s) == *old(s),
        r matches Ok(u) ==> {
            &&& old(s).proposal_type == Some(u.kind)
            &&& opt_bytes(old(s).future_wasm) == Some(u.wasm@)
            &&& final(s).voting_deadline == 0
            &&& final(s).future_wasm is None
            &&& final(s).proposal_type is None
            &&& final(s).voted.size() == 0
            &&& final(s).voters == old(s).voters
            &&& u.kind == UpgradeType::Upgrade ==> final(s).wallet_version == old(s).wallet_version
            &&& u.kind == UpgradeType::WalletVersion ==> opt_bytes(final(s).wallet_version) == Some(
                u.wasm@,
            )
        },
        old(s).coherent() ==> final(s).coherent(),
{
    let deadline = s.voting_deadline;
    if deadline == 0 {
        return Err(ContractError::NoPendingUpgradeAction);
    }
    if now <= deadline {
        return Err(ContractError::VotingStillOngoing);
    }
    let (proposal_type, new_wasm_hash) = match get_future_wasm(s) {
        Ok(p) => p,
        Err(e) => return Err(e),
    };
    let has_passed = match read_has_upgrade_passed(s) {
        Ok((_, passed)) => passed,
        Err(e) => return Err(e),
    };
    if !has_passed {
        return Err(ContractError::DidNotPass);
    }
    match proposal_type {
        UpgradeType::Upgrade => {
            clear_pending_upgrade_state(s);
        },
        UpgradeType::WalletVersion => {
            let _ = write_wallet_version(s, new_wasm_hash.as_slice());
            clear_pending_upgrade_state(s);
        },
    }
    Ok(ExecutedUpgrade { kind: proposal_type, wasm: new_wasm_hash })
}

/// Cancels the pending proposal, clearing it and its votes; returns its WASM
/// hash. Fails, leaving the state unchanged, where none is stored.
pub fn cancel_upgrade_proposal(s: &mut UpgradeState) -> (r: Result<Vec<u8>, ContractError>)
    ensures
        match r {
            Ok(w) => {
                &&& old(s).future_wasm is Some
                &&& old(s).proposal_type is Some
                &&& opt_bytes(old(s).future_wasm) == Some(w@)
                &&& final(s).voting_deadline == 0
                &&& final(s).future_wasm is None
                &&& final(s).proposal_type is None
                &&& final(s).voted.wf()
                &&& final(s).voted.size() == 0
                &&& final(s).voters == old(s).voters
                &&& final(s).wallet_version == old(s).wallet_version
            },
            Err(e) => *final(s) == *old(s) && ((old(s).future_wasm is None && e
                == ContractError::UpgradeWasmNotFound) || (old(s).future_wasm is Some && old(
                s,
            ).proposal_type is None && e == ContractError::UpgradeTypeNotFound)),
        },
        old(s).coherent() ==> final(s).coherent(),
{
    let (_, wasm) = match get_future_wasm(s) {
        Ok(p) => p,
        Err(e) => return Err(e),
    };
    clear_pending_upgrade_state(s);
    Ok(wasm)
}

/// `(vote_count, has_passed)` of the pending proposal.
pub fn get_upgrade_votes(s: &UpgradeState) -> (r: Result<(u32, bool), ContractError>)
    requires
        s.wf(),
    ensures
        match r {
            Ok((count, passed)) => s.voting_deadline != 0 && count == s.voted.size() && passed == (
            count >= passing_threshold(s.voters.size())),
            Err(_) => s.voting_deadline == 0 || s.voters.size() == 0 || s.voters.size()
                * voters::VOTING_THRESHOLD + 99 > u32::MAX,
        },
{
    read_has_upgrade_passed(s)
}

/// The approved wallet version, or `WalletWasmNotFound`.
pub fn get_wallet_version(s: &UpgradeState) -> (r: Result<Vec<u8>, ContractError>)
    ensures
        match r {
            Ok(w) => opt_bytes(s.wallet_version) == Some(w@),
            Err(e) => s.wallet_version is None && e == ContractError::WalletWasmNotFound,
        },
{
    read_wallet_version(s)
}

/// Adds an approved voter (`AlreadyInVotersList` when present).
pub fn upgrade_add_voter(s: &mut UpgradeState, voter: &Address) -> (r: Result<(), ContractError>)
    requires
        old(s).wf(),
        old(s).voters.size() < u32::MAX,
    ensures
        final(s).wf(),
        old(s).voters.members().contains(voter@) ==> r == Err::<(), ContractError>(
            ContractError::AlreadyInVotersList,
        ) && *final(s) == *old(s),
        !old(s).voters.members().contains(voter@) ==> r is Ok && final(s).voters.members() == old(
            s,
        ).voters.members().insert(voter@) && final(s).voters.size() == old(s).voters.size() + 1,
        final(s).voting_deadline == old(s).voting_deadline,
        final(s).future_wasm == old(s).future_wasm,
        final(s).proposal_type == old(s).proposal_type,
        final(s).voted == old(s).voted,
        final(s).wallet_version == old(s).wallet_version,
{
    write_add_voter(s, voter)
}

} // verus!
