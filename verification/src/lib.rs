//! Verified core of the SocketFi smart-wallet contracts.
use vstd::prelude::*;

pub mod errors;
pub mod bytes;
pub mod keyset;
pub mod keymap;
pub mod address;
pub mod xdr;
pub mod host;
pub mod bls;
pub mod types;
pub mod registry_types;
pub mod utils;
pub mod access;
pub mod tokens;
pub mod upgrade;
pub mod identity_registry;
pub mod social_payments;
pub mod factory;
pub mod wallet;
pub mod legacy_registry;
pub mod fee_types;

verus! {

} // verus!
