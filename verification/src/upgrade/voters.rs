//! The approved voter set and the passing threshold of a proposal.
use vstd::prelude::*;
use crate::address::{Address, AddressKind};
use crate::errors::ContractError;
use super::storage::UpgradeState;

verus! {

/// Share of voters, in percent, whose votes pass a proposal.
pub const VOTING_THRESHOLD: u32 = 75;

/// Votes needed to pass a proposal among `total` voters: `VOTING_THRESHOLD`
/// percent of them, rounded up.
pub open spec fn passing_threshold(total: nat) -> nat {
    (total * VOTING_THRESHOLD as nat + 99) / 100
}

/// Whether `voter` is an approved voter.
pub fn read_is_voter(s: &UpgradeState, voter: &Address) -> (r: bool)
    ensures
        r == s.voters.members().contains(voter@),
{
    s.voters.contains(voter)
}

/// Adds an approved voter, or fails with `AlreadyInVotersList` leaving the
/// state unchanged.
pub fn write_add_voter(s: &mut UpgradeState, voter: &Address) -> (r: Result<(), ContractError>)
    requires
        old(s).wf(),
        old(s).voters.size() < u32::MAX,
    ensures
        final(s).wf(),
        old(s).voters.members().contains(voter@) ==> r == Err::<(), ContractError>(
            ContractError::AlreadyInVotersList,
        ) && *final(s) == *old(s),
        !old(s).voters.members().contains(voter@) ==> r is Ok && final(s).voters.members() == old(
            s,
        ).voters.members().insert(voter@) && final(s).voters.size() == old(s).voters.size() + 1,
        final(s).voting_deadline == old(s).voting_deadline,
        final(s).future_wasm == old(s).future_wasm,
        final(s).proposal_type == old(s).proposal_type,
        final(s).voted == old(s).voted,
        final(s).wallet_version == old(s).wallet_version,
{
    if read_is_voter(s, voter) {
        return Err(ContractError::AlreadyInVotersList);
    }
    s.voters.insert(voter);
    Ok(())
}

/// Removes an approved voter, or fails with `NotInVotersList` leaving the
/// state unchanged. Votes already cast stay counted.
pub fn write_remove_voter(s: &mut UpgradeState, voter: &Address) -> (r: Result<(), ContractError>)
    requires
        old(s).wf(),
    ensures
        final(s).wf(),
        !old(s).voters.members().contains(voter@) ==> r == Err::<(), ContractError>(
            ContractError::NotInVotersList,
        ) && *final(s) == *old(s),
        old(s).voters.members().contains(voter@) ==> r is Ok && final(s).voters.members() == old(
            s,
        ).voters.members().remove(voter@) && final(s).voters.size() + 1 == old(s).voters.size(),
        final(s).voting_deadline == old(s).voting_deadline,
        final(s).future_wasm == old(s).future_wasm,
        final(s).proposal_type == old(s).proposal_type,
        final(s).voted == old(s).voted,
        final(s).wallet_version == old(s).wallet_version,
{
    if !read_is_voter(s, voter) {
        return Err(ContractError::NotInVotersList);
    }
    s.voters.remove(voter);
    Ok(())
}

/// The approved voters, in ledger order.
pub fn read_voters_list(s: &UpgradeState) -> (r: Result<Vec<Address>, ContractError>)
    requires
        s.wf(),
    ensures
        match r {
            Ok(v) => v@.len() == s.voters.ordered().len() && (forall|i: int|
                0 <= i < v@.len() ==> (#[trigger] v@[i])@ == s.voters.ordered()[i])
                && crate::address::lists_exactly(v@, s.voters.members()),
            Err(_) => false,
        },
{
    Ok(s.voters.to_vec())
}

/// Number of approved voters.
fn read_voter_count(s: &UpgradeState) -> (r: Result<u32, ContractError>)
    requires
        s.wf(),
    ensures
        r matches Ok(n) && n == s.voters.size(),
{
    let voters = match read_voters_list(s) {
        Ok(v) => v,
        Err(e) => return Err(e),
    };
    proof {
        s.voters.lemma_ordered_len();
    }
    Ok(voters.len() as u32)
}

/// `(total_voters, passing_threshold)`; fails with `NoVoters` when there
/// are no voters and with `Overflow` when the threshold computation
/// overflows 32 bits.
pub fn get_voter_info(s: &UpgradeState) -> (r: Result<(u32, u32), ContractError>)
    requires
        s.wf(),
    ensures
        match r {
            Ok((total, threshold)) => total == s.voters.size() && total > 0 && threshold
                == passing_threshold(total as nat) && total * VOTING_THRESHOLD + 99 <= u32::MAX,
            Err(e) => (s.voters.size() == 0 && e == ContractError::NoVoters) || (s.voters.size() > 0
                && s.voters.size() * VOTING_THRESHOLD + 99 > u32::MAX && e
                == ContractError::Overflow),
        },
{
    let total = match read_voter_count(s) {
        Ok(n) => n,
        Err(e) => return Err(e),
    };
    if total == 0 {
        return Err(ContractError::NoVoters);
    }
    let scaled = match total.checked_mul(VOTING_THRESHOLD) {
        Some(v) => v,
        None => return Err(ContractError::Overflow),
    };
    let padded = match scaled.checked_add(99) {
        Some(v) => v,
        None => return Err(ContractError::Overflow),
    };
    Ok((total, padded / 100))
}

/// `(vote_count, has_passed)` of the pending proposal; fails with
/// `NoPendingUpgradeAction` when none is pending, otherwise as
/// `get_voter_info`.
pub fn read_has_upgrade_passed(s: &UpgradeState) -> (r: Result<(u32, bool), ContractError>)
    requires
        s.wf(),
    ensures
        match r {
            Ok((count, passed)) => s.voting_deadline != 0 && s.voters.size() > 0 && count
                == s.voted.size() && passed == (count >= passing_threshold(s.voters.size()))
                && s.voters.size() * VOTING_THRESHOLD + 99 <= u32::MAX,
            Err(e) => (s.voting_deadline == 0 && e == ContractError::NoPendingUpgradeAction) || (
            s.voting_deadline != 0 && s.voters.size() == 0 && e == ContractError::NoVoters) || (
            s.voting_deadline != 0 && s.voters.size() > 0 && s.voters.size() * VOTING_THRESHOLD
                + 99 > u32::MAX && e == ContractError::Overflow),
        },
{
    if s.voting_deadline == 0 {
        return Err(ContractError::NoPendingUpgradeAction);
    }
    let (_, threshold) = match get_voter_info(s) {
        Ok(info) => info,
        Err(e) => return Err(e),
    };
    let vote_count = s.voted.len() as u32;
    Ok((vote_count, vote_count >= threshold))
}

/// The threshold is the least vote count reaching `VOTING_THRESHOLD`
/// percent of the voters.
pub proof fn lemma_threshold_is_least_majority(total: nat)
    ensures
        passing_threshold(total) * 100 >= total * VOTING_THRESHOLD as nat,
        total > 0 ==> (passing_threshold(total) - 1) * 100 < total * VOTING_THRESHOLD as nat,
        passing_threshold(total) <= total,
{
}

} // verus!
