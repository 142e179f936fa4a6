//! The smart wallet: its keys, owner, spending limits and transfers.
pub mod bls_access;
pub mod contract;
