//! The platform registry: the singleton configuration and aggregate
//! counters shared by every campaign.

use vstd::prelude::*;

use crate::errors::ErrorCode;

verus! {

/// Identity of an account taking part in the system (admin, creator,
/// beneficiary, donor, matcher, or a campaign's own address). The
/// surrounding environment authenticates callers; the ledger only
/// compares identities for equality.
pub type AccountId = u64;

/// Fee charged on withdrawal when the platform is initialized, in basis
/// points (250 = 2.5%).
pub const DEFAULT_FEE_BPS: u16 = 250;

/// Basis points denominator: fees are `balance * fee_percentage / 10000`.
pub const BPS_DENOMINATOR: u64 = 10000;

/// Singleton platform state. Created once at deployment, mutated by
/// campaign creation (counter) and donations (raised total), never
/// destroyed.
#[derive(Clone, Copy, Debug, PartialEq, Eq, Structural)]
pub struct Platform {
    /// Identity allowed to perform privileged operations (emergency pause).
    pub admin: AccountId,
    /// Withdrawal fee in basis points, 0..=10000.
    pub fee_percentage: u16,
    /// Monotonically increasing counter; doubles as the next campaign id.
    pub total_campaigns: u64,
    /// Cumulative sum over all campaigns of donated plus matched amounts.
    pub total_raised: u64,
}

impl Platform {
    /// Well-formedness: the fee rate is a valid basis-points value.
    pub open spec fn wf(self) -> bool {
        self.fee_percentage <= BPS_DENOMINATOR
    }

    /// Hands out the identifier for the next campaign and advances the
    /// counter by exactly one, atomically with the creation it accompanies.
    pub fn next_campaign_id(&mut self) -> (r: Result<u64, ErrorCode>)
        ensures
            old(self).total_campaigns == u64::MAX ==> r == Err::<u64, ErrorCode>(
                ErrorCode::ArithmeticOverflow,
            ) && *final(self) == *old(self),
            old(self).total_campaigns < u64::MAX ==> r == Ok::<u64, ErrorCode>(
                old(self).total_campaigns,
            ) && final(self).total_campaigns == old(self).total_campaigns + 1,
            final(self).admin == old(self).admin,
            final(self).fee_percentage == old(self).fee_percentage,
            final(self).total_raised == old(self).total_raised,
    {
        match self.total_campaigns.checked_add(1) {
            Some(next) => {
                let id = self.total_campaigns;
                self.total_campaigns = next;
                Ok(id)
            },
            None => Err(ErrorCode::ArithmeticOverflow),
        }
    }

    /// Adds a contribution (donated plus matched) to the platform-wide
    /// raised total; overflow is a fatal error, never silently truncated.
    pub fn add_raised(&mut self, amount: u64) -> (r: Result<(), ErrorCode>)
        ensures
            old(self).total_raised + amount > u64::MAX ==> r == Err::<(), ErrorCode>(
                ErrorCode::ArithmeticOverflow,
            ) && *final(self) == *old(self),
            old(self).total_raised + amount <= u64::MAX ==> r == Ok::<(), ErrorCode>(())
                && final(self).total_raised == old(self).total_raised + amount,
            final(self).admin == old(self).admin,
            final(self).fee_percentage == old(self).fee_percentage,
            final(self).total_campaigns == old(self).total_campaigns,
            final(self).total_raised >= old(self).total_raised,
    {
        match self.total_raised.checked_add(amount) {
            Some(next) => {
                self.total_raised = next;
                Ok(())
            },
            None => Err(ErrorCode::ArithmeticOverflow),
        }
    }
}

/// Creates the singleton platform record with the default fee rate and
/// zeroed counters. The surrounding environment guarantees at-most-once
/// creation of the singleton storage slot; no other operation may run
/// before this one.
pub fn initialize_platform(admin: AccountId) -> (platform: Platform)
    ensures
        platform.admin == admin,
        platform.fee_percentage == DEFAULT_FEE_BPS,
        platform.total_campaigns == 0,
        platform.total_raised == 0,
        platform.wf(),
{
    Platform { admin, fee_percentage: DEFAULT_FEE_BPS, total_campaigns: 0, total_raised: 0 }
}

} // verus!
