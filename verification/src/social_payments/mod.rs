//! The social payments router: payments addressed to a social identity,
//! sent straight to its wallet when the identity is bound, held pending
//! otherwise.
pub mod data;
pub mod payment;
pub mod contract;
