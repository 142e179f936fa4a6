//! Fee decisions: collect a fee now in a supported asset, or defer it.
use vstd::prelude::*;
use crate::address::Address;

verus! {

/// A fee collected now: `total_fee_in_asset` of `fee_asset`, worth
/// `total_in_base` in the base unit, on a transaction of `total_tx_amount`.
pub struct CollectNowData {
    pub fee_asset: Address,
    pub total_fee_in_asset: i128,
    pub total_in_base: i128,
    pub total_tx_amount: i128,
}

/// A deferred fee: the wallet's deferred fee becomes `updated_deferred_fee`.
pub struct DeferData {
    pub updated_deferred_fee: i128,
    pub total_tx_amount: i128,
}

/// What to do with a transaction's fee.
pub enum FeeDecision {
    CollectNow(CollectNowData),
    Defer(DeferData),
}

/// Errors of the fee manager.
#[derive(Clone, Copy, Debug, PartialEq, Eq, Structural)]
pub enum FeeError {
    UnsupportedAsset,
    MaxPendingFeeNotFound,
    FeeRateNotSet,
    InvalidAmount,
}

} // verus!
