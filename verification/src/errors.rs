//! Errors shared by the SocketFi contracts.
use vstd::prelude::*;

verus! {

/// Errors returned by the SocketFi contracts.
#[derive(Clone, Copy, Debug, PartialEq, Eq, Structural)]
pub enum ContractError {
    // configuration
    AdminNotFound,
    FactoryNotFound,
    SocialPayNotFound,
    RegistryNotFound,
    FeeManagerNotFound,
    EscrowNotFound,
    AlreadyInitialized,
    VersionNotFound,
    // identity strings
    InvalidUserId,
    MaxLengthExceeded,
    UpperNotAllowed,
    SpacesNotAllowed,
    PlatformNotSupported,
    NotSupportedUpgradeType,
    // assets and limits
    AssetAlreadySupported,
    AssetNotSupported,
    UnsupportedAsset,
    InvalidExpiration,
    InvalidAmount,
    InvalidLimit,
    ExceedMaxAllowance,
    InvalidDuration,
    Overflow,
    // identity registry
    UseridAlreadyMapped,
    PasskeyAlreadyMapped,
    ValidatorAlreadyExists,
    ValidatorNotFound,
    InvalidThreshold,
    IncorrectNumberOfSignatures,
    NotValidator,
    DuplicateValidator,
    // social payments
    PaymentNotFound,
    PaymentNotClaimable,
    PaymentExpired,
    UnauthorizedClaim,
    PaymentNotRefundable,
    NotPaymentSender,
    PaymentNotExpired,
    // upgrade governance
    AnotherUpgradePending,
    NoPendingUpgradeAction,
    VotingClosed,
    NotInVotersList,
    InvalidUpgradeHash,
    AlreadyVoted,
    VotingStillOngoing,
    DidNotPass,
    UpgradeWasmNotFound,
    UpgradeTypeNotFound,
    WalletWasmNotFound,
    AlreadyInVotersList,
    NoVoters,
}

} // verus!
