//! Notification values emitted by successful operations.
//!
//! Each successful operation returns the notification it emits; delivery
//! to external observers is fire-and-forget and left to the caller. These
//! are side-channel audit events, not part of the transactional outcome.

use vstd::prelude::*;

use crate::platform::AccountId;

verus! {

/// A campaign was created and its matching pool funded.
#[derive(Clone, Copy, Debug, PartialEq, Eq, Structural)]
pub struct CampaignCreated {
    pub campaign_id: u64,
    pub creator: AccountId,
    pub goal_amount: u64,
    pub matching_pool_amount: u64,
}

/// A donation was accepted, with its matched top-up.
#[derive(Clone, Copy, Debug, PartialEq, Eq, Structural)]
pub struct DonationMade {
    pub campaign_id: u64,
    pub donor: AccountId,
    pub amount: u64,
    pub matching_amount: u64,
    pub total_amount: u64,
}

/// The donation that first brought the raised amount up to the goal.
#[derive(Clone, Copy, Debug, PartialEq, Eq, Structural)]
pub struct GoalReached {
    pub campaign_id: u64,
    pub final_amount: u64,
}

/// The campaign escrow was settled to the beneficiary, less the fee.
#[derive(Clone, Copy, Debug, PartialEq, Eq, Structural)]
pub struct FundsWithdrawn {
    pub campaign_id: u64,
    /// The campaign's beneficiary, whose custody the payout is credited
    /// to — whichever of the two authorized identities called.
    pub beneficiary: AccountId,
    pub amount: u64,
    pub platform_fee: u64,
}

/// The admin deactivated the campaign.
#[derive(Clone, Copy, Debug, PartialEq, Eq, Structural)]
pub struct CampaignPaused {
    pub campaign_id: u64,
}

/// The matching pool was topped up.
#[derive(Clone, Copy, Debug, PartialEq, Eq, Structural)]
pub struct MatchingFundsAdded {
    pub campaign_id: u64,
    pub matcher: AccountId,
    pub amount: u64,
}

} // verus!
