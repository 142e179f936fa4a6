//! Stored state of upgrade governance: at most one pending proposal, the
//! voter set, the votes cast on the pending proposal, and the approved
//! wallet version.
use vstd::prelude::*;
use crate::address::AddressSet;
use crate::bytes::copy_bytes;
use crate::errors::ContractError;
use crate::types::{UpgradeType, ascii, upgrade_name, wallet_name};

verus! {

/// Governance state of a contract.
pub struct UpgradeState {
    /// Time after which the pending proposal may be executed; `0` when no
    /// proposal is pending.
    pub voting_deadline: u64,
    /// WASM hash under vote.
    pub future_wasm: Option<Vec<u8>>,
    /// Kind of the pending proposal.
    pub proposal_type: Option<UpgradeType>,
    /// Approved voters.
    pub voters: AddressSet,
    /// Voters who voted for the pending proposal.
    pub voted: AddressSet,
    /// Approved wallet implementation hash.
    pub wallet_version: Option<Vec<u8>>,
}

/// The bytes of an optional byte string.
pub open spec fn opt_bytes(o: Option<Vec<u8>>) -> Option<Seq<u8>> {
    match o {
        Some(v) => Some(v@),
        None => None,
    }
}

/// The proposal kind a text names.
pub open spec fn parse_upgrade_type(s: Seq<u8>) -> Option<UpgradeType> {
    if s == ascii(upgrade_name()) {
        Some(UpgradeType::Upgrade)
    } else if s == ascii(wallet_name()) {
        Some(UpgradeType::WalletVersion)
    } else {
        None
    }
}

impl UpgradeState {
    /// Structural well-formedness; counts fit the ledger's 32-bit lengths.
    pub open spec fn wf(&self) -> bool {
        &&& self.voters.wf()
        &&& self.voted.wf()
        &&& self.voters.size() <= u32::MAX
        &&& self.voted.size() <= u32::MAX
    }

    /// A proposal is pending exactly when a deadline, a WASM hash and a kind
    /// are all stored.
    pub open spec fn coherent(&self) -> bool {
        &&& (self.voting_deadline != 0) == (self.future_wasm is Some)
        &&& (self.voting_deadline != 0) == (self.proposal_type is Some)
        &&& self.voting_deadline == 0 ==> self.voted.size() == 0
    }

    /// No governance state yet.
    pub fn new() -> (s: Self)
        ensures
            s.wf(),
            s.coherent(),
            s.voting_deadline == 0,
            s.future_wasm is None,
            s.proposal_type is None,
            s.voters.members() == Set::<(crate::address::AddressKind, Seq<u8>)>::empty(),
            s.voters.size() == 0,
            s.voted.members() == Set::<(crate::address::AddressKind, Seq<u8>)>::empty(),
            s.voted.size() == 0,
            s.wallet_version is None,
    {
        UpgradeState {
            voting_deadline: 0,
            future_wasm: None,
            proposal_type: None,
            voters: AddressSet::new(),
            voted: AddressSet::new(),
            wallet_version: None,
        }
    }
}

/// The pending proposal's deadline; `0` when none is pending.
pub fn get_upgrade_voting_deadline(s: &UpgradeState) -> (r: u64)
    ensures
        r == s.voting_deadline,
{
    s.voting_deadline
}

/// Sets the pending proposal's deadline.
pub fn write_upgrade_voting_deadline(s: &mut UpgradeState, value: u64)
    ensures
        final(s).voting_deadline == value,
        final(s).future_wasm == old(s).future_wasm,
        final(s).proposal_type == old(s).proposal_type,
        final(s).voters == old(s).voters,
        final(s).voted == old(s).voted,
        final(s).wallet_version == old(s).wallet_version,
{
    s.voting_deadline = value;
}

/// The pending proposal as `(kind, wasm_hash)`.
pub fn get_future_wasm(s: &UpgradeState) -> (r: Result<(UpgradeType, Vec<u8>), ContractError>)
    ensures
        match r {
            Ok((t, w)) => s.proposal_type == Some(t) && opt_bytes(s.future_wasm) == Some(w@),
            Err(e) => (s.future_wasm is None && e == ContractError::UpgradeWasmNotFound) || (
            s.future_wasm is Some && s.proposal_type is None && e
                == ContractError::UpgradeTypeNotFound),
        },
{
    let wasm = match &s.future_wasm {
        Some(w) => copy_bytes(w.as_slice()),
        None => return Err(ContractError::UpgradeWasmNotFound),
    };
    match s.proposal_type {
        Some(t) => Ok((t, wasm)),
        None => Err(ContractError::UpgradeTypeNotFound),
    }
}

/// Stores a pending proposal's kind (parsed from text) and WASM hash. An
/// unsupported kind leaves the state unchanged.
pub fn write_future_wasm(s: &mut UpgradeState, proposal_type: &[u8], wasm: &[u8]) -> (r: Result<(), ContractError>)
    ensures
        match parse_upgrade_type(proposal_type@) {
            Some(t) => r is Ok && final(s).proposal_type == Some(t) && opt_bytes(final(s).future_wasm)
                == Some(wasm@),
            None => r == Err::<(), ContractError>(ContractError::NotSupportedUpgradeType) && *final(s)
                == *old(s),
        },
        r is Ok ==> final(s).voting_deadline == old(s).voting_deadline && final(s).voters == old(
            s,
        ).voters && final(s).voted == old(s).voted && final(s).wallet_version == old(
            s,
        ).wallet_version,
{
    let t = match UpgradeType::upgrade_type(proposal_type) {
        Ok(t) => t,
        Err(e) => return Err(e),
    };
    s.future_wasm = Some(copy_bytes(wasm));
    s.proposal_type = Some(t);
    Ok(())
}

/// Stores the approved wallet implementation hash.
pub fn write_wallet_version(s: &mut UpgradeState, wasm_hash: &[u8]) -> (r: Result<(), ContractError>)
    ensures
        r is Ok,
        opt_bytes(final(s).wallet_version) == Some(wasm_hash@),
        final(s).voting_deadline == old(s).voting_deadline,
        final(s).future_wasm == old(s).future_wasm,
        final(s).proposal_type == old(s).proposal_type,
        final(s).voters == old(s).voters,
        final(s).voted == old(s).voted,
{
    s.wallet_version = Some(copy_bytes(wasm_hash));
    Ok(())
}

/// The approved wallet implementation hash, or `WalletWasmNotFound`.
pub fn read_wallet_version(s: &UpgradeState) -> (r: Result<Vec<u8>, ContractError>)
    ensures
        match r {
            Ok(w) => opt_bytes(s.wallet_version) == Some(w@),
            Err(e) => s.wallet_version is None && e == ContractError::WalletWasmNotFound,
        },
{
    match &s.wallet_version {
        Some(w) => Ok(copy_bytes(w.as_slice())),
        None => Err(ContractError::WalletWasmNotFound),
    }
}

/// Clears the pending proposal: deadline, WASM hash, kind and votes.
pub fn clear_pending_upgrade_state(s: &mut UpgradeState)
    ensures
        final(s).voting_deadline == 0,
        final(s).future_wasm is None,
        final(s).proposal_type is None,
        final(s).voted.wf(),
        final(s).voted.size() == 0,
        final(s).voted.members() == Set::<(crate::address::AddressKind, Seq<u8>)>::empty(),
        final(s).voters == old(s).voters,
        final(s).wallet_version == old(s).wallet_version,
{
    s.voting_deadline = 0;
    s.future_wasm = None;
    s.proposal_type = None;
    s.voted = AddressSet::new();
}

} // verus!
