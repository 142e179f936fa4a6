//! The identity registry: validator-approved `(platform, user_id) -> wallet`
//! bindings and factory-registered `passkey -> wallet` bindings.
use vstd::prelude::*;

pub mod validators;
pub mod registry;
pub mod contract;

verus! {

} // verus!
