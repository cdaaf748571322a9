//! Error codes reported by the ledger operations.

use vstd::prelude::*;

verus! {

/// Why an operation was rejected. Every rejection aborts the whole
/// operation with no ledger mutation at all.
#[derive(Clone, Copy, Debug, PartialEq, Eq, Structural)]
pub enum ErrorCode {
    /// Campaign goal must be positive.
    InvalidGoalAmount,
    /// Matching pool funding must be positive.
    InvalidMatchingAmount,
    /// Matching ratio must lie in 1..=200.
    InvalidMatchingRatio,
    /// Campaign duration must be positive.
    InvalidDuration,
    /// Title exceeds the allowed length.
    TitleTooLong,
    /// Description exceeds the allowed length.
    DescriptionTooLong,
    /// Donations must be positive.
    InvalidDonationAmount,
    /// The campaign has been deactivated (goal reached or paused).
    CampaignInactive,
    /// The campaign's end time has passed.
    CampaignExpired,
    /// The campaign already raised at least its goal.
    GoalReached,
    /// Only the beneficiary or the creator may withdraw.
    UnauthorizedWithdrawal,
    /// None of the withdrawal unlock conditions holds yet.
    CampaignStillActive,
    /// The campaign escrow is empty.
    NoFundsToWithdraw,
    /// Only the platform admin may do this.
    Unauthorized,
    /// Amount must be positive.
    InvalidAmount,
    /// A checked arithmetic step would overflow.
    ArithmeticOverflow,
}

impl ErrorCode {
    /// A short human-readable message for this code.
    pub fn message(&self) -> (m: &'static str) {
        match self {
            ErrorCode::InvalidGoalAmount => "Invalid goal amount",
            ErrorCode::InvalidMatchingAmount => "Invalid matching amount",
            ErrorCode::InvalidMatchingRatio => "Invalid matching ratio",
            ErrorCode::InvalidDuration => "Invalid duration",
            ErrorCode::TitleTooLong => "Title too long",
            ErrorCode::DescriptionTooLong => "Description too long",
            ErrorCode::InvalidDonationAmount => "Invalid donation amount",
            ErrorCode::CampaignInactive => "Campaign is inactive",
            ErrorCode::CampaignExpired => "Campaign has expired",
            ErrorCode::GoalReached => "Goal already reached",
            ErrorCode::UnauthorizedWithdrawal => "Unauthorized withdrawal",
            ErrorCode::CampaignStillActive => "Campaign is still active",
            ErrorCode::NoFundsToWithdraw => "No funds to withdraw",
            ErrorCode::Unauthorized => "Unauthorized",
            ErrorCode::InvalidAmount => "Invalid amount",
            ErrorCode::ArithmeticOverflow => "Arithmetic overflow",
        }
    }
}

} // verus!
