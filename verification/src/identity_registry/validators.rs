//! The validator set: ed25519 public keys whose signatures approve
//! identity bindings. Every validator must sign a binding.
use vstd::prelude::*;
use crate::errors::ContractError;
use crate::keyset::ByteSet;

verus! {

/// The stored validator set; `None` until a validator is first added.
pub struct Validators {
    pub set: Option<ByteSet>,
}

impl Validators {
    /// Well-formedness.
    pub open spec fn wf(&self) -> bool {
        self.set matches Some(s) ==> s.wf() && s.key_seq().len() <= u32::MAX
    }

    /// The validator keys (empty while none is stored).
    pub open spec fn members(&self) -> Set<Seq<u8>> {
        match self.set {
            Some(s) => s.key_set(),
            None => Set::empty(),
        }
    }

    /// Number of validators (zero while none is stored).
    pub open spec fn count(&self) -> nat {
        match self.set {
            Some(s) => s.key_seq().len(),
            None => 0,
        }
    }

    /// No validator set stored yet.
    pub fn new() -> (v: Self)
        ensures
            v.wf(),
            v.set is None,
    {
        Validators { set: None }
    }
}

/// Adds a validator key; fails with `ValidatorAlreadyExists`, leaving the
/// set unchanged, where it is present.
pub fn write_add_validator(vs: &mut Validators, v: &[u8]) -> (r: Result<(), ContractError>)
    requires
        old(vs).wf(),
        old(vs).count() < u32::MAX,
    ensures
        final(vs).wf(),
        old(vs).members().contains(v@) ==> r == Err::<(), ContractError>(
            ContractError::ValidatorAlreadyExists,
        ) && *final(vs) == *old(vs),
        !old(vs).members().contains(v@) ==> r is Ok && final(vs).set is Some && final(vs).members()
            == old(vs).members().insert(v@) && final(vs).count() == old(vs).count() + 1,
{
    match vs.set.take() {
        None => {
            let mut m = ByteSet::new();
            m.insert(v);
            assert(m.key_set() =~= old(vs).members().insert(v@));
            vs.set = Some(m);
            Ok(())
        },
        Some(mut m) => {
            if m.contains(v) {
                vs.set = Some(m);
                return Err(ContractError::ValidatorAlreadyExists);
            }
            m.insert(v);
            vs.set = Some(m);
            Ok(())
        },
    }
}

/// Removes a validator key; fails with `ValidatorNotFound`, leaving the set
/// unchanged, where it is absent. The (possibly empty) set stays stored.
pub fn write_remove_validator(vs: &mut Validators, v: &[u8]) -> (r: Result<(), ContractError>)
    requires
        old(vs).wf(),
    ensures
        final(vs).wf(),
        !old(vs).members().contains(v@) ==> r == Err::<(), ContractError>(
            ContractError::ValidatorNotFound,
        ) && *final(vs) == *old(vs),
        old(vs).members().contains(v@) ==> r is Ok && final(vs).set is Some && final(vs).members()
            == old(vs).members().remove(v@) && final(vs).count() + 1 == old(vs).count(),
{
    match vs.set.take() {
        None => {
            assert(!old(vs).members().contains(v@));
            Err(ContractError::ValidatorNotFound)
        },
        Some(mut m) => {
            let ghost pre = m;
            if m.remove(v) {
                vs.set = Some(m);
                Ok(())
            } else {
                vs.set = Some(m);
                Err(ContractError::ValidatorNotFound)
            }
        },
    }
}

/// Whether `v` is a validator.
pub fn read_is_validator(vs: &Validators, v: &[u8]) -> (r: bool)
    ensures
        r == vs.members().contains(v@),
{
    match &vs.set {
        Some(m) => m.contains(v),
        None => false,
    }
}

/// The validator keys in ascending order; fails with `ValidatorNotFound`
/// while no validator set has been stored.
pub fn read_validators(vs: &Validators) -> (r: Result<Vec<Vec<u8>>, ContractError>)
    ensures
        match r {
            Ok(keys) => vs.set matches Some(s) && crate::keyset::views(keys@) == s.key_seq(),
            Err(e) => vs.set is None && e == ContractError::ValidatorNotFound,
        },
{
    match &vs.set {
        Some(m) => Ok(m.keys()),
        None => Err(ContractError::ValidatorNotFound),
    }
}

/// Number of signatures a binding needs: the number of validators.
pub fn read_threshold(vs: &Validators) -> (r: u32)
    requires
        vs.wf(),
    ensures
        r == vs.count(),
{
    match &vs.set {
        Some(m) => m.len() as u32,
        None => 0,
    }
}

} // verus!
