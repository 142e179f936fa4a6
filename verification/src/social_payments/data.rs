//! Payments to social identities.
use vstd::prelude::*;
use crate::address::{Address, AddressKind};
use crate::bytes::copy_bytes;
use crate::tokens::{Deposit, Transfer};

verus! {

/// Result of a payment: sent directly to the wallet bound to the identity,
/// or held pending under a payment id.
pub enum PaymentResult {
    Direct(Address),
    Pending(Vec<u8>),
}

/// What a payment does: its result and the token moves it makes — `take`
/// from the payer into the contract, then, for a direct payment, `send` on
/// to the bound wallet.
pub struct PaymentOutcome {
    pub result: PaymentResult,
    pub take: Deposit,
    pub send: Option<Transfer>,
}

/// Lifecycle of a pending payment.
#[derive(Clone, Copy, Debug, PartialEq, Eq, Structural)]
pub enum PaymentStatus {
    Pending,
    Claimed,
    Refunded,
}

/// A payment held for a social identity until it is claimed or, once it has
/// expired, refunded.
pub struct PendingPayment {
    pub payment_id: Vec<u8>,
    pub sender: Address,
    pub asset: Address,
    pub amount: i128,
    pub platform: Vec<u8>,
    pub user_id: Vec<u8>,
    pub created_at: u64,
    pub expires_at: u64,
    pub status: PaymentStatus,
    pub claimed_by: Option<Address>,
}

/// The contents of a pending payment.
pub struct PaymentView {
    pub payment_id: Seq<u8>,
    pub sender: (AddressKind, Seq<u8>),
    pub asset: (AddressKind, Seq<u8>),
    pub amount: i128,
    pub platform: Seq<u8>,
    pub user_id: Seq<u8>,
    pub created_at: u64,
    pub expires_at: u64,
    pub status: PaymentStatus,
    pub claimed_by: Option<(AddressKind, Seq<u8>)>,
}

impl View for PendingPayment {
    type V = PaymentView;

    open spec fn view(&self) -> PaymentView {
        PaymentView {
            payment_id: self.payment_id@,
            sender: self.sender@,
            asset: self.asset@,
            amount: self.amount,
            platform: self.platform@,
            user_id: self.user_id@,
            created_at: self.created_at,
            expires_at: self.expires_at,
            status: self.status,
            claimed_by: match self.claimed_by {
                Some(a) => Some(a@),
                None => None,
            },
        }
    }
}

impl PendingPayment {
    /// A copy of this payment.
    pub fn copy(&self) -> (r: PendingPayment)
        ensures
            r@ == self@,
    {
        PendingPayment {
            payment_id: copy_bytes(self.payment_id.as_slice()),
            sender: self.sender.copy(),
            asset: self.asset.copy(),
            amount: self.amount,
            platform: copy_bytes(self.platform.as_slice()),
            user_id: copy_bytes(self.user_id.as_slice()),
            created_at: self.created_at,
            expires_at: self.expires_at,
            status: self.status,
            claimed_by: match &self.claimed_by {
                Some(a) => Some(a.copy()),
                None => None,
            },
        }
    }
}

} // verus!
