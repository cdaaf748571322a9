//! The donation processor: validates a donation, computes its match,
//! and applies all ledger updates atomically.

use vstd::prelude::*;

use crate::campaign::Campaign;
use crate::errors::ErrorCode;
use crate::escrow::Escrow;
use crate::events::{DonationMade, GoalReached};
use crate::matching::{calculate_matching_amount, match_amount};
use crate::platform::{AccountId, Platform};

verus! {

/// Immutable audit record of one accepted donation, keyed by the campaign,
/// the donor, and the campaign's donor count at the time of the donation.
#[derive(Clone, Copy, Debug, PartialEq, Eq, Structural)]
pub struct Donation {
    /// Who donated.
    pub donor: AccountId,
    /// The campaign donated to.
    pub campaign: u64,
    /// The donor-contributed portion.
    pub amount: u64,
    /// The matched top-up taken from the pool.
    pub matching_amount: u64,
    /// `amount + matching_amount`.
    pub total_amount: u64,
    /// Time of the donation.
    pub timestamp: i64,
}

/// The first precondition failure for a donation, in reporting order:
/// positive amount, campaign active, not past its end time, goal not yet
/// reached.
pub open spec fn donate_validation_error(campaign: Campaign, amount: u64, now: i64) -> Option<
    ErrorCode,
> {
    if amount == 0 {
        Some(ErrorCode::InvalidDonationAmount)
    } else if !campaign.is_active {
        Some(ErrorCode::CampaignInactive)
    } else if now > campaign.end_time {
        Some(ErrorCode::CampaignExpired)
    } else if campaign.raised_amount >= campaign.goal_amount {
        Some(ErrorCode::GoalReached)
    } else {
        None
    }
}

/// Deactivation is permanent: a donation against an inactive campaign is
/// always rejected, so once a campaign deactivates — by reaching its goal
/// or by an emergency pause — no donation ever changes it again, and no
/// operation sets the flag back.
pub proof fn lemma_inactive_campaign_rejects_donations(campaign: Campaign, amount: u64, now: i64)
    requires
        !campaign.is_active,
    ensures
        donate_validation_error(campaign, amount, now) is Some,
{
}

/// The goal gate is closed from both sides: a campaign whose raised
/// amount has reached its goal rejects every donation, whatever its
/// activity flag says, so the donation that first reaches the goal is the
/// last one ever accepted.
pub proof fn lemma_goal_reached_rejects_donations(campaign: Campaign, amount: u64, now: i64)
    requires
        campaign.raised_amount >= campaign.goal_amount,
    ensures
        donate_validation_error(campaign, amount, now) is Some,
{
}

/// Whether every checked arithmetic step of a valid donation fits: the
/// ratio product, the total contribution, the campaign and platform
/// raised totals, the donor counter, and the escrow credit.
pub open spec fn donate_fits(
    platform: Platform,
    campaign: Campaign,
    escrow: Escrow,
    amount: u64,
) -> bool {
    let matched = match_amount(amount, campaign.matching_ratio, campaign.matching_pool_remaining);
    let total = amount + matched;
    &&& (amount as int) * (campaign.matching_ratio as int) <= u64::MAX
    &&& total <= u64::MAX
    &&& campaign.raised_amount + total <= u64::MAX
    &&& campaign.total_donors + 1 <= u32::MAX
    &&& platform.total_raised + total <= u64::MAX
    &&& escrow.balance + amount <= u64::MAX
}

/// The audit record written for a donation of `amount` accepted against
/// the campaign state `pre` at time `now`.
pub open spec fn donation_record(pre: Campaign, donor: AccountId, amount: u64, now: i64) -> Donation {
    let matched = match_amount(amount, pre.matching_ratio, pre.matching_pool_remaining);
    Donation {
        donor,
        campaign: pre.campaign_id,
        amount,
        matching_amount: matched as u64,
        total_amount: (amount + matched) as u64,
        timestamp: now,
    }
}

/// The campaign record after a successful donation of `amount` with match
/// `matched`: the raised total grows by the whole contribution, the
/// remaining pool shrinks by the matched part, the donor count advances,
/// and the campaign deactivates exactly when the new raised total reaches
/// the goal.
pub open spec fn campaign_after_donation(pre: Campaign, amount: u64, matched: int) -> Campaign {
    let raised = (pre.raised_amount + amount + matched) as u64;
    Campaign {
        raised_amount: raised,
        matching_pool_remaining: (pre.matching_pool_remaining - matched) as u64,
        total_donors: (pre.total_donors + 1) as u32,
        is_active: raised < pre.goal_amount,
        ..pre
    }
}

/// Processes one donation atomically. On success: records the donation,
/// adds the donated and matched amounts to the campaign's and the
/// platform's raised totals, consumes the matched amount from the
/// remaining pool, advances the donor counter, credits the donor's own
/// contribution to the campaign escrow (the matched portion is already
/// resident there from pool funding), and — if the goal is now reached —
/// deactivates the campaign and reports it. On any error nothing changes.
pub fn donate(
    platform: &mut Platform,
    campaign: &mut Campaign,
    escrow: &mut Escrow,
    donor: AccountId,
    amount: u64,
    now: i64,
) -> (r: Result<(Donation, DonationMade, Option<GoalReached>), ErrorCode>)
    requires
        old(campaign).wf(),
        old(escrow).campaign_id == old(campaign).campaign_id,
    ensures
        r.is_err() ==> *final(platform) == *old(platform) && *final(campaign) == *old(campaign)
            && *final(escrow) == *old(escrow),
        donate_validation_error(*old(campaign), amount, now) matches Some(e) ==> r matches Err(c)
            && c == e,
        donate_validation_error(*old(campaign), amount, now) is None && !donate_fits(
            *old(platform),
            *old(campaign),
            *old(escrow),
            amount,
        ) ==> (r matches Err(c) && c == ErrorCode::ArithmeticOverflow),
        donate_validation_error(*old(campaign), amount, now) is None && donate_fits(
            *old(platform),
            *old(campaign),
            *old(escrow),
            amount,
        ) ==> r.is_ok(),
        r matches Ok(out) ==> ({
            let matched = match_amount(
                amount,
                old(campaign).matching_ratio,
                old(campaign).matching_pool_remaining,
            );
            let total = amount + matched;
            let (record, event, goal_event) = out;
            &&& *final(campaign) == campaign_after_donation(*old(campaign), amount, matched)
            &&& final(platform).total_raised == old(platform).total_raised + total
            &&& final(platform).admin == old(platform).admin
            &&& final(platform).fee_percentage == old(platform).fee_percentage
            &&& final(platform).total_campaigns == old(platform).total_campaigns
            &&& final(escrow).balance == old(escrow).balance + amount
            &&& final(escrow).campaign_id == old(escrow).campaign_id
            &&& record == donation_record(*old(campaign), donor, amount, now)
            &&& event == (DonationMade {
                campaign_id: old(campaign).campaign_id,
                donor,
                amount,
                matching_amount: matched as u64,
                total_amount: total as u64,
            })
            &&& goal_event == (if final(campaign).raised_amount >= old(campaign).goal_amount {
                Some(
                    GoalReached {
                        campaign_id: old(campaign).campaign_id,
                        final_amount: final(campaign).raised_amount,
                    },
                )
            } else {
                None::<GoalReached>
            })
            &&& final(campaign).wf()
        }),
        final(campaign).is_active ==> old(campaign).is_active,
        final(campaign).raised_amount >= old(campaign).raised_amount,
        final(platform).total_raised >= old(platform).total_raised,
{
    if amount == 0 {
        return Err(ErrorCode::InvalidDonationAmount);
    }
    if !campaign.is_active {
        return Err(ErrorCode::CampaignInactive);
    }
    if now > campaign.end_time {
        return Err(ErrorCode::CampaignExpired);
    }
    if campaign.raised_amount >= campaign.goal_amount {
        return Err(ErrorCode::GoalReached);
    }
    let matched = match calculate_matching_amount(
        amount,
        campaign.matching_ratio,
        campaign.matching_pool_remaining,
    ) {
        Ok(m) => m,
        Err(e) => {
            return Err(e);
        },
    };
    let total = match amount.checked_add(matched) {
        Some(t) => t,
        None => {
            return Err(ErrorCode::ArithmeticOverflow);
        },
    };
    let new_raised = match campaign.raised_amount.checked_add(total) {
        Some(v) => v,
        None => {
            return Err(ErrorCode::ArithmeticOverflow);
        },
    };
    let new_remaining = match campaign.matching_pool_remaining.checked_sub(matched) {
        Some(v) => v,
        None => {
            return Err(ErrorCode::ArithmeticOverflow);
        },
    };
    let new_donors = match campaign.total_donors.checked_add(1) {
        Some(v) => v,
        None => {
            return Err(ErrorCode::ArithmeticOverflow);
        },
    };
    let new_total_raised = match platform.total_raised.checked_add(total) {
        Some(v) => v,
        None => {
            return Err(ErrorCode::ArithmeticOverflow);
        },
    };
    // The donor's own contribution moves from the donor's custody into the
    // campaign escrow. This is the first mutation; if the credit fails the
    // escrow is untouched and nothing else has changed yet.
    match escrow.credit(amount) {
        Ok(()) => {},
        Err(e) => {
            return Err(e);
        },
    };
    let record = Donation {
        donor,
        campaign: campaign.campaign_id,
        amount,
        matching_amount: matched,
        total_amount: total,
        timestamp: now,
    };
    campaign.raised_amount = new_raised;
    campaign.matching_pool_remaining = new_remaining;
    campaign.total_donors = new_donors;
    platform.total_raised = new_total_raised;
    let event = DonationMade {
        campaign_id: campaign.campaign_id,
        donor,
        amount,
        matching_amount: matched,
        total_amount: total,
    };
    let goal_event = if campaign.raised_amount >= campaign.goal_amount {
        campaign.is_active = false;
        Some(GoalReached { campaign_id: campaign.campaign_id, final_amount: campaign.raised_amount })
    } else {
        None
    };
    Ok((record, event, goal_event))
}

} // verus!
