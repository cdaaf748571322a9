//! Per-campaign ledger records and their lifecycle operations: creation,
//! matching-pool top-ups, and the emergency pause.

use vstd::prelude::*;

use crate::errors::ErrorCode;
use crate::escrow::Escrow;
use crate::events::{CampaignCreated, CampaignPaused, MatchingFundsAdded};
use crate::platform::{AccountId, Platform};

verus! {

/// Longest accepted title, in bytes of its UTF-8 encoding.
pub const MAX_TITLE_BYTES: usize = 100;

/// Longest accepted description, in bytes of its UTF-8 encoding.
pub const MAX_DESCRIPTION_BYTES: usize = 500;

/// Largest accepted matching ratio (200 = a 2:1 match).
pub const MAX_MATCHING_RATIO: u8 = 200;

/// Number of bytes in the UTF-8 encoding of a string.
pub open spec fn utf8_len(s: String) -> nat {
    vstd::utf8::encode_utf8(s@).len()
}

/// One crowdfunding campaign. Created once, mutated by donations,
/// matching-fund top-ups and the emergency pause, never destroyed: its
/// terminal state is "inactive, possibly drained", kept as a permanent
/// historical record.
#[derive(Clone, Debug)]
pub struct Campaign {
    /// Assigned from the platform's campaign counter at creation;
    /// immutable and unique.
    pub campaign_id: u64,
    /// Identity that created the campaign; may withdraw.
    pub creator: AccountId,
    /// Identity the payout goes to; may withdraw; may equal the creator.
    pub beneficiary: AccountId,
    /// Target amount; always positive.
    pub goal_amount: u64,
    /// Sum of donated plus matched amounts so far; never decreases.
    pub raised_amount: u64,
    /// All matching funds ever put in; grows only by top-ups.
    pub matching_pool_total: u64,
    /// Matching funds not yet spent on matches; at most the total.
    pub matching_pool_remaining: u64,
    /// Match percentage in 1..=200 (100 = 1:1 matching).
    pub matching_ratio: u8,
    /// Immutable after creation; at most 100 bytes.
    pub title: String,
    /// Immutable after creation; at most 500 bytes.
    pub description: String,
    /// Time the campaign was created.
    pub created_at: i64,
    /// `created_at` plus the requested duration; donations are accepted
    /// only up to this time.
    pub end_time: i64,
    /// Cleared when the goal is reached or the admin pauses; never set
    /// again afterwards.
    pub is_active: bool,
    /// Count of successful donation operations (repeat donors count each
    /// time); the sequence number for the next donation record.
    pub total_donors: u32,
}

impl Campaign {
    /// Well-formedness established at creation and preserved by every
    /// operation.
    pub open spec fn wf(self) -> bool {
        &&& self.goal_amount > 0
        &&& 0 < self.matching_ratio <= MAX_MATCHING_RATIO
        &&& self.matching_pool_remaining <= self.matching_pool_total
        &&& self.created_at < self.end_time
        &&& utf8_len(self.title) <= MAX_TITLE_BYTES
        &&& utf8_len(self.description) <= MAX_DESCRIPTION_BYTES
    }
}

/// The first input validation failure for campaign creation, in reporting
/// order: goal, pool amount, ratio, duration, title, description.
pub open spec fn create_validation_error(
    goal_amount: u64,
    matching_pool_amount: u64,
    campaign_duration: i64,
    title: String,
    description: String,
    matching_ratio: u8,
) -> Option<ErrorCode> {
    if goal_amount == 0 {
        Some(ErrorCode::InvalidGoalAmount)
    } else if matching_pool_amount == 0 {
        Some(ErrorCode::InvalidMatchingAmount)
    } else if matching_ratio == 0 || matching_ratio > MAX_MATCHING_RATIO {
        Some(ErrorCode::InvalidMatchingRatio)
    } else if campaign_duration <= 0 {
        Some(ErrorCode::InvalidDuration)
    } else if utf8_len(title) > MAX_TITLE_BYTES {
        Some(ErrorCode::TitleTooLong)
    } else if utf8_len(description) > MAX_DESCRIPTION_BYTES {
        Some(ErrorCode::DescriptionTooLong)
    } else {
        None
    }
}

/// The campaign record populated at creation: zeroed progress fields, the
/// full matching pool still remaining, active, with no donors yet.
pub open spec fn new_campaign(
    campaign_id: u64,
    creator: AccountId,
    goal_amount: u64,
    matching_pool_amount: u64,
    title: String,
    description: String,
    matching_ratio: u8,
    beneficiary: AccountId,
    created_at: i64,
    end_time: i64,
) -> Campaign {
    Campaign {
        campaign_id,
        creator,
        beneficiary,
        goal_amount,
        raised_amount: 0,
        matching_pool_total: matching_pool_amount,
        matching_pool_remaining: matching_pool_amount,
        matching_ratio,
        title,
        description,
        created_at,
        end_time,
        is_active: true,
        total_donors: 0,
    }
}

/// Creates a campaign: validates the inputs, assigns the next campaign id,
/// populates the record, and opens its escrow funded with the matching
/// pool moved in from the creator's custody. Atomic: on any error the
/// platform is unchanged and nothing is created.
pub fn create_campaign(
    platform: &mut Platform,
    creator: AccountId,
    goal_amount: u64,
    matching_pool_amount: u64,
    campaign_duration: i64,
    title: String,
    description: String,
    matching_ratio: u8,
    beneficiary: AccountId,
    now: i64,
) -> (r: Result<(Campaign, Escrow, CampaignCreated), ErrorCode>)
    ensures
        r.is_err() ==> *final(platform) == *old(platform),
        create_validation_error(
            goal_amount,
            matching_pool_amount,
            campaign_duration,
            title,
            description,
            matching_ratio,
        ) matches Some(e) ==> r matches Err(c) && c == e,
        create_validation_error(
            goal_amount,
            matching_pool_amount,
            campaign_duration,
            title,
            description,
            matching_ratio,
        ) is None && (now + campaign_duration > i64::MAX || old(platform).total_campaigns
            == u64::MAX) ==> (r matches Err(c) && c == ErrorCode::ArithmeticOverflow),
        create_validation_error(
            goal_amount,
            matching_pool_amount,
            campaign_duration,
            title,
            description,
            matching_ratio,
        ) is None && now + campaign_duration <= i64::MAX && old(platform).total_campaigns
            < u64::MAX ==> r.is_ok(),
        r matches Ok(out) ==> ({
            let (campaign, escrow, event) = out;
            &&& campaign == new_campaign(
                old(platform).total_campaigns,
                creator,
                goal_amount,
                matching_pool_amount,
                title,
                description,
                matching_ratio,
                beneficiary,
                now,
                (now + campaign_duration) as i64,
            )
            &&& campaign.wf()
            &&& escrow.campaign_id == campaign.campaign_id
            &&& escrow.balance == matching_pool_amount
            &&& event == (CampaignCreated {
                campaign_id: campaign.campaign_id,
                creator,
                goal_amount,
                matching_pool_amount,
            })
            &&& final(platform).total_campaigns == old(platform).total_campaigns + 1
            &&& final(platform).admin == old(platform).admin
            &&& final(platform).fee_percentage == old(platform).fee_percentage
            &&& final(platform).total_raised == old(platform).total_raised
        }),
{
    if goal_amount == 0 {
        return Err(ErrorCode::InvalidGoalAmount);
    }
    if matching_pool_amount == 0 {
        return Err(ErrorCode::InvalidMatchingAmount);
    }
    if matching_ratio == 0 || matching_ratio > MAX_MATCHING_RATIO {
        return Err(ErrorCode::InvalidMatchingRatio);
    }
    if campaign_duration <= 0 {
        return Err(ErrorCode::InvalidDuration);
    }
    if title.as_str().as_bytes().len() > MAX_TITLE_BYTES {
        return Err(ErrorCode::TitleTooLong);
    }
    if description.as_str().as_bytes().len() > MAX_DESCRIPTION_BYTES {
        return Err(ErrorCode::DescriptionTooLong);
    }
    let end_time = match now.checked_add(campaign_duration) {
        Some(t) => t,
        None => {
            return Err(ErrorCode::ArithmeticOverflow);
        },
    };
    let campaign_id = match platform.next_campaign_id() {
        Ok(id) => id,
        Err(e) => {
            return Err(e);
        },
    };
    let campaign = Campaign {
        campaign_id,
        creator,
        beneficiary,
        goal_amount,
        raised_amount: 0,
        matching_pool_total: matching_pool_amount,
        matching_pool_remaining: matching_pool_amount,
        matching_ratio,
        title,
        description,
        created_at: now,
        end_time,
        is_active: true,
        total_donors: 0,
    };
    // The matching pool moves from the creator's custody into the
    // campaign's dedicated escrow.
    let escrow = Escrow::open(campaign_id, matching_pool_amount);
    let event = CampaignCreated {
        campaign_id,
        creator,
        goal_amount,
        matching_pool_amount,
    };
    Ok((campaign, escrow, event))
}

/// Unconditionally deactivates the campaign, whatever its goal or expiry
/// state. Only the platform admin may do this, and no reversal operation
/// exists: pausing is one-way.
pub fn emergency_pause_campaign(
    platform: &Platform,
    campaign: &mut Campaign,
    caller: AccountId,
) -> (r: Result<CampaignPaused, ErrorCode>)
    ensures
        caller != platform.admin ==> r == Err::<CampaignPaused, ErrorCode>(
            ErrorCode::Unauthorized,
        ) && *final(campaign) == *old(campaign),
        caller == platform.admin ==> r == Ok::<CampaignPaused, ErrorCode>(
            CampaignPaused { campaign_id: old(campaign).campaign_id },
        ) && !final(campaign).is_active,
        final(campaign).is_active ==> old(campaign).is_active,
        final(campaign).campaign_id == old(campaign).campaign_id,
        final(campaign).creator == old(campaign).creator,
        final(campaign).beneficiary == old(campaign).beneficiary,
        final(campaign).goal_amount == old(campaign).goal_amount,
        final(campaign).raised_amount == old(campaign).raised_amount,
        final(campaign).matching_pool_total == old(campaign).matching_pool_total,
        final(campaign).matching_pool_remaining == old(campaign).matching_pool_remaining,
        final(campaign).matching_ratio == old(campaign).matching_ratio,
        final(campaign).title == old(campaign).title,
        final(campaign).description == old(campaign).description,
        final(campaign).created_at == old(campaign).created_at,
        final(campaign).end_time == old(campaign).end_time,
        final(campaign).total_donors == old(campaign).total_donors,
        old(campaign).wf() ==> final(campaign).wf(),
{
    if caller != platform.admin {
        return Err(ErrorCode::Unauthorized);
    }
    campaign.is_active = false;
    Ok(CampaignPaused { campaign_id: campaign.campaign_id })
}

/// Tops up the matching pool of an active campaign: moves `amount` from
/// the matcher's custody into the campaign escrow and grows both the pool
/// total and the remaining pool. Anyone may call this, not just the
/// creator. Atomic: on any error neither the campaign nor the escrow
/// changes.
pub fn add_matching_funds(
    campaign: &mut Campaign,
    escrow: &mut Escrow,
    matcher: AccountId,
    amount: u64,
) -> (r: Result<MatchingFundsAdded, ErrorCode>)
    requires
        old(campaign).wf(),
        old(escrow).campaign_id == old(campaign).campaign_id,
    ensures
        r.is_err() ==> *final(campaign) == *old(campaign) && *final(escrow) == *old(escrow),
        amount == 0 ==> r == Err::<MatchingFundsAdded, ErrorCode>(ErrorCode::InvalidAmount),
        amount > 0 && !old(campaign).is_active ==> r == Err::<MatchingFundsAdded, ErrorCode>(
            ErrorCode::CampaignInactive,
        ),
        amount > 0 && old(campaign).is_active && (old(campaign).matching_pool_total + amount
            > u64::MAX || old(escrow).balance + amount > u64::MAX) ==> r == Err::<
            MatchingFundsAdded,
            ErrorCode,
        >(ErrorCode::ArithmeticOverflow),
        amount > 0 && old(campaign).is_active && old(campaign).matching_pool_total + amount
            <= u64::MAX && old(escrow).balance + amount <= u64::MAX ==> r.is_ok(),
        r matches Ok(event) ==> ({
            &&& final(campaign).matching_pool_total == old(campaign).matching_pool_total + amount
            &&& final(campaign).matching_pool_remaining == old(
                campaign,
            ).matching_pool_remaining + amount
            &&& final(escrow).balance == old(escrow).balance + amount
            &&& event == (MatchingFundsAdded {
                campaign_id: old(campaign).campaign_id,
                matcher,
                amount,
            })
        }),
        final(campaign).campaign_id == old(campaign).campaign_id,
        final(campaign).creator == old(campaign).creator,
        final(campaign).beneficiary == old(campaign).beneficiary,
        final(campaign).goal_amount == old(campaign).goal_amount,
        final(campaign).raised_amount == old(campaign).raised_amount,
        final(campaign).matching_ratio == old(campaign).matching_ratio,
        final(campaign).title == old(campaign).title,
        final(campaign).description == old(campaign).description,
        final(campaign).created_at == old(campaign).created_at,
        final(campaign).end_time == old(campaign).end_time,
        final(campaign).is_active == old(campaign).is_active,
        final(campaign).total_donors == old(campaign).total_donors,
        final(escrow).campaign_id == old(escrow).campaign_id,
        final(campaign).wf(),
{
    if amount == 0 {
        return Err(ErrorCode::InvalidAmount);
    }
    if !campaign.is_active {
        return Err(ErrorCode::CampaignInactive);
    }
    let new_total = match campaign.matching_pool_total.checked_add(amount) {
        Some(t) => t,
        None => {
            return Err(ErrorCode::ArithmeticOverflow);
        },
    };
    let new_remaining = match campaign.matching_pool_remaining.checked_add(amount) {
        Some(rem) => rem,
        None => {
            return Err(ErrorCode::ArithmeticOverflow);
        },
    };
    // The top-up moves from the matcher's custody into the campaign
    // escrow; if the credit fails nothing has changed yet.
    match escrow.credit(amount) {
        Ok(()) => {},
        Err(e) => {
            return Err(e);
        },
    };
    campaign.matching_pool_total = new_total;
    campaign.matching_pool_remaining = new_remaining;
    Ok(MatchingFundsAdded { campaign_id: campaign.campaign_id, matcher, amount })
}

} // verus!
