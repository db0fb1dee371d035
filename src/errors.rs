use vstd::prelude::*;

verus! {

/// Why an operation was refused. A refused operation changes nothing.
#[derive(Clone, Copy, Debug, PartialEq, Eq, Structural)]
pub enum AppError {
    AmountTooSmall,
    NotAuthorized,
    InvalidSquare,
    RoundEnded,
    RoundNotStarted,
    InvalidAutomationStrategy,
    InsufficientBalance,
    InvalidTimestamp,
    MustCheckpoint,
    InsufficientRent,
    InvalidDeployment,
    InvalidEndSlot,
    EntropyNotFinalized,
    InvalidEntropyVar,
    EntropyNotConfigured,
    InvalidSwapAccounts,
    InvalidSwapState,
    Overflow,
    Underflow,
    InvalidAmount,
    InvalidFeeCollector,
    SelfReferral,
    InvalidReferral,
}

impl AppError {
    /// The message that accompanies the error.
    pub fn message(&self) -> (r: &'static str) {
        match self {
            AppError::AmountTooSmall => "Amount too small",
            AppError::NotAuthorized => "Not authorized",
            AppError::InvalidSquare => "Invalid square selection",
            AppError::RoundEnded => "Round has ended",
            AppError::RoundNotStarted => "Round has not started",
            AppError::InvalidAutomationStrategy => "Invalid automation strategy",
            AppError::InsufficientBalance => "Insufficient balance",
            AppError::InvalidTimestamp => "Invalid timestamp",
            AppError::MustCheckpoint => "Miner must checkpoint previous round before deploying to new round",
            AppError::InsufficientRent => "Insufficient rent",
            AppError::InvalidDeployment => "Invalid deployment",
            AppError::InvalidEndSlot => "Invalid end slot for entropy var",
            AppError::EntropyNotFinalized => "Entropy var not finalized",
            AppError::InvalidEntropyVar => "Invalid entropy var address",
            AppError::EntropyNotConfigured => "Entropy oracle not configured",
            AppError::InvalidSwapAccounts => "Invalid swap accounts provided",
            AppError::InvalidSwapState => "Invalid state after swap (potential exploit detected)",
            AppError::Overflow => "Arithmetic overflow",
            AppError::Underflow => "Arithmetic underflow",
            AppError::InvalidAmount => "Invalid amount",
            AppError::InvalidFeeCollector => "Invalid fee collector address",
            AppError::SelfReferral => "Cannot refer yourself",
            AppError::InvalidReferral => "Invalid referral account",
        }
    }
}

} // verus!
