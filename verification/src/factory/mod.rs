//! The wallet factory: configuration, wallet deployment and governance.
pub mod wallet_factory;
pub mod contract;
