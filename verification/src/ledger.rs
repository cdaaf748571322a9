//! The ledger engine: the platform singleton, the arena of campaigns, the
//! campaign-id-indexed escrow custody records, and the append-only
//! donation log, driven as one state machine.
//!
//! The campaign identifier doubles as the index into the arena, so the
//! custody record for a campaign is derivable deterministically from its
//! identifier and transfer authorization stays internal to the engine.

use vstd::prelude::*;

use crate::campaign::{create_validation_error, new_campaign, Campaign};
use crate::donation::{
    campaign_after_donation, donate_fits, donate_validation_error, donation_record, Donation,
};
use crate::errors::ErrorCode;
use crate::escrow::Escrow;
use crate::events::{
    CampaignCreated, CampaignPaused, DonationMade, FundsWithdrawn, GoalReached, MatchingFundsAdded,
};
use crate::matching::match_amount;
use crate::platform::{initialize_platform, AccountId, Platform, DEFAULT_FEE_BPS};
use crate::settlement::{spec_fee, withdraw_unlocked};

verus! {

/// The whole persisted state of one deployment: the platform singleton,
/// every campaign ever created with its escrow, and every donation ever
/// accepted.
pub struct Ledger {
    /// Singleton configuration and aggregate counters.
    pub platform: Platform,
    /// Campaign records; the index is the campaign id.
    pub campaigns: Vec<Campaign>,
    /// Custody records, one per campaign, at the same index.
    pub escrows: Vec<Escrow>,
    /// Append-only audit log of accepted donations, in order of
    /// acceptance.
    pub donations: Vec<Donation>,
}

impl Ledger {
    /// Well-formedness: the platform is valid, every campaign sits at the
    /// index equal to its id with a matching custody record, the arena
    /// size agrees with the platform's campaign counter, and every
    /// campaign record is itself well-formed.
    pub open spec fn wf(self) -> bool {
        &&& self.platform.wf()
        &&& self.escrows@.len() == self.campaigns@.len()
        &&& self.campaigns@.len() == self.platform.total_campaigns
        &&& forall|i: int|
            0 <= i < self.campaigns@.len() ==> (#[trigger] self.campaigns@[i]).campaign_id == i
        &&& forall|i: int| 0 <= i < self.campaigns@.len() ==> (#[trigger] self.campaigns@[i]).wf()
        &&& forall|i: int|
            0 <= i < self.escrows@.len() ==> (#[trigger] self.escrows@[i]).campaign_id == i
    }

    /// One-time initialization: the platform singleton with the default
    /// fee rate and an empty arena. The surrounding environment
    /// guarantees this runs at most once, before any other operation.
    pub fn new(admin: AccountId) -> (ledger: Ledger)
        ensures
            ledger.wf(),
            ledger.platform.admin == admin,
            ledger.platform.fee_percentage == DEFAULT_FEE_BPS,
            ledger.platform.total_campaigns == 0,
            ledger.platform.total_raised == 0,
            ledger.campaigns@.len() == 0,
            ledger.escrows@.len() == 0,
            ledger.donations@.len() == 0,
    {
        Ledger {
            platform: initialize_platform(admin),
            campaigns: Vec::new(),
            escrows: Vec::new(),
            donations: Vec::new(),
        }
    }

    /// Creates a campaign in the arena, as `create_campaign` does, and
    /// keeps its record and escrow under the assigned id.
    pub fn create_campaign(
        &mut self,
        creator: AccountId,
        goal_amount: u64,
        matching_pool_amount: u64,
        campaign_duration: i64,
        title: String,
        description: String,
        matching_ratio: u8,
        beneficiary: AccountId,
        now: i64,
    ) -> (r: Result<CampaignCreated, ErrorCode>)
        requires
            old(self).wf(),
        ensures
            final(self).wf(),
            r.is_err() ==> final(self).platform == old(self).platform && final(self).campaigns@
                == old(self).campaigns@ && final(self).escrows@ == old(self).escrows@,
            final(self).donations@ == old(self).donations@,
            create_validation_error(
                goal_amount,
                matching_pool_amount,
                campaign_duration,
                title,
                description,
                matching_ratio,
            ) matches Some(e) ==> r matches Err(c) && c == e,
            create_validation_error(
                goal_amount,
                matching_pool_amount,
                campaign_duration,
                title,
                description,
                matching_ratio,
            ) is None && (now + campaign_duration > i64::MAX || old(self).platform.total_campaigns
                == u64::MAX) ==> (r matches Err(c) && c == ErrorCode::ArithmeticOverflow),
            create_validation_error(
                goal_amount,
                matching_pool_amount,
                campaign_duration,
                title,
                description,
                matching_ratio,
            ) is None && now + campaign_duration <= i64::MAX && old(self).platform.total_campaigns
                < u64::MAX ==> r.is_ok(),
            r matches Ok(event) ==> ({
                let id = old(self).platform.total_campaigns;
                let campaign = new_campaign(
                    id,
                    creator,
                    goal_amount,
                    matching_pool_amount,
                    title,
                    description,
                    matching_ratio,
                    beneficiary,
                    now,
                    (now + campaign_duration) as i64,
                );
                &&& final(self).campaigns@ == old(self).campaigns@.push(campaign)
                &&& final(self).escrows@ == old(self).escrows@.push(
                    Escrow { campaign_id: id, balance: matching_pool_amount },
                )
                &&& final(self).platform.total_campaigns == old(self).platform.total_campaigns + 1
                &&& final(self).platform.admin == old(self).platform.admin
                &&& final(self).platform.fee_percentage == old(self).platform.fee_percentage
                &&& final(self).platform.total_raised == old(self).platform.total_raised
                &&& event == (CampaignCreated {
                    campaign_id: id,
                    creator,
                    goal_amount,
                    matching_pool_amount,
                })
            }),
    {
        match crate::campaign::create_campaign(
            &mut self.platform,
            creator,
            goal_amount,
            matching_pool_amount,
            campaign_duration,
            title,
            description,
            matching_ratio,
            beneficiary,
            now,
        ) {
            Ok((campaign, escrow, event)) => {
                self.campaigns.push(campaign);
                self.escrows.push(escrow);
                Ok(event)
            },
            Err(e) => Err(e),
        }
    }

    /// Processes a donation against the campaign held under `campaign_id`,
    /// as `donate` does, and appends the audit record to the donation log.
    pub fn donate(&mut self, campaign_id: usize, donor: AccountId, amount: u64, now: i64) -> (r:
        Result<(DonationMade, Option<GoalReached>), ErrorCode>)
        requires
            old(self).wf(),
            campaign_id < old(self).campaigns@.len(),
        ensures
            final(self).wf(),
            r.is_err() ==> final(self).platform == old(self).platform && final(self).campaigns@
                == old(self).campaigns@ && final(self).escrows@ == old(self).escrows@
                && final(self).donations@ == old(self).donations@,
            donate_validation_error(old(self).campaigns@[campaign_id as int], amount, now)
                matches Some(e) ==> r matches Err(c) && c == e,
            donate_validation_error(old(self).campaigns@[campaign_id as int], amount, now) is None
                && !donate_fits(
                old(self).platform,
                old(self).campaigns@[campaign_id as int],
                old(self).escrows@[campaign_id as int],
                amount,
            ) ==> (r matches Err(c) && c == ErrorCode::ArithmeticOverflow),
            donate_validation_error(old(self).campaigns@[campaign_id as int], amount, now) is None
                && donate_fits(
                old(self).platform,
                old(self).campaigns@[campaign_id as int],
                old(self).escrows@[campaign_id as int],
                amount,
            ) ==> r.is_ok(),
            r matches Ok(out) ==> ({
                let pre = old(self).campaigns@[campaign_id as int];
                let pre_escrow = old(self).escrows@[campaign_id as int];
                let matched = match_amount(amount, pre.matching_ratio, pre.matching_pool_remaining);
                let total = amount + matched;
                let post = campaign_after_donation(pre, amount, matched);
                &&& final(self).campaigns@ == old(self).campaigns@.update(campaign_id as int, post)
                &&& final(self).escrows@ == old(self).escrows@.update(
                    campaign_id as int,
                    Escrow {
                        campaign_id: pre_escrow.campaign_id,
                        balance: (pre_escrow.balance + amount) as u64,
                    },
                )
                &&& final(self).donations@ == old(self).donations@.push(
                    donation_record(pre, donor, amount, now),
                )
                &&& final(self).platform.total_raised == old(self).platform.total_raised + total
                &&& final(self).platform.admin == old(self).platform.admin
                &&& final(self).platform.fee_percentage == old(self).platform.fee_percentage
                &&& final(self).platform.total_campaigns == old(self).platform.total_campaigns
                &&& out.0 == (DonationMade {
                    campaign_id: pre.campaign_id,
                    donor,
                    amount,
                    matching_amount: matched as u64,
                    total_amount: total as u64,
                })
                &&& out.1 == (if post.raised_amount >= pre.goal_amount {
                    Some(
                        GoalReached { campaign_id: pre.campaign_id, final_amount: post.raised_amount },
                    )
                } else {
                    None::<GoalReached>
                })
            }),
    {
        let r = crate::donation::donate(
            &mut self.platform,
            &mut self.campaigns[campaign_id],
            &mut self.escrows[campaign_id],
            donor,
            amount,
            now,
        );
        match r {
            Ok((record, event, goal_event)) => {
                self.donations.push(record);
                Ok((event, goal_event))
            },
            Err(e) => {
                proof {
                    assert(self.campaigns@ =~= old(self).campaigns@);
                    assert(self.escrows@ =~= old(self).escrows@);
                }
                Err(e)
            },
        }
    }

    /// Settles the escrow of the campaign held under `campaign_id`, as
    /// `withdraw_funds` does. The campaign record and the donation log
    /// stay as history.
    pub fn withdraw_funds(&mut self, campaign_id: usize, caller: AccountId, now: i64) -> (r: Result<
        FundsWithdrawn,
        ErrorCode,
    >)
        requires
            old(self).wf(),
            campaign_id < old(self).campaigns@.len(),
        ensures
            final(self).wf(),
            final(self).platform == old(self).platform,
            final(self).campaigns@ == old(self).campaigns@,
            final(self).donations@ == old(self).donations@,
            r.is_err() ==> final(self).escrows@ == old(self).escrows@,
            ({
                let campaign = old(self).campaigns@[campaign_id as int];
                let balance = old(self).escrows@[campaign_id as int].balance;
                &&& caller != campaign.beneficiary && caller != campaign.creator ==> r == Err::<
                    FundsWithdrawn,
                    ErrorCode,
                >(ErrorCode::UnauthorizedWithdrawal)
                &&& (caller == campaign.beneficiary || caller == campaign.creator)
                    && !withdraw_unlocked(campaign, now) ==> r == Err::<FundsWithdrawn, ErrorCode>(
                    ErrorCode::CampaignStillActive,
                )
                &&& (caller == campaign.beneficiary || caller == campaign.creator)
                    && withdraw_unlocked(campaign, now) && balance == 0 ==> r == Err::<
                    FundsWithdrawn,
                    ErrorCode,
                >(ErrorCode::NoFundsToWithdraw)
                &&& (caller == campaign.beneficiary || caller == campaign.creator)
                    && withdraw_unlocked(campaign, now) && balance > 0 && (balance as int) * (
                old(self).platform.fee_percentage as int) > u64::MAX ==> r == Err::<
                    FundsWithdrawn,
                    ErrorCode,
                >(ErrorCode::ArithmeticOverflow)
                &&& (caller == campaign.beneficiary || caller == campaign.creator)
                    && withdraw_unlocked(campaign, now) && balance > 0 && (balance as int) * (
                old(self).platform.fee_percentage as int) <= u64::MAX ==> r.is_ok()
            }),
            r matches Ok(event) ==> ({
                let campaign = old(self).campaigns@[campaign_id as int];
                let balance = old(self).escrows@[campaign_id as int].balance;
                let fee = spec_fee(balance, old(self).platform.fee_percentage);
                &&& event == (FundsWithdrawn {
                    campaign_id: campaign.campaign_id,
                    beneficiary: campaign.beneficiary,
                    amount: (balance - fee) as u64,
                    platform_fee: fee as u64,
                })
                &&& event.amount + event.platform_fee == balance
                &&& final(self).escrows@ == old(self).escrows@.update(
                    campaign_id as int,
                    Escrow { campaign_id: campaign.campaign_id, balance: 0 },
                )
            }),
    {
        let r = crate::settlement::withdraw_funds(
            &self.platform,
            &self.campaigns[campaign_id],
            &mut self.escrows[campaign_id],
            caller,
            now,
        );
        proof {
            if r.is_err() {
                assert(self.escrows@ =~= old(self).escrows@);
            }
        }
        r
    }

    /// Deactivates the campaign held under `campaign_id`, as
    /// `emergency_pause_campaign` does.
    pub fn emergency_pause_campaign(&mut self, campaign_id: usize, caller: AccountId) -> (r: Result<
        CampaignPaused,
        ErrorCode,
    >)
        requires
            old(self).wf(),
            campaign_id < old(self).campaigns@.len(),
        ensures
            final(self).wf(),
            final(self).platform == old(self).platform,
            final(self).escrows@ == old(self).escrows@,
            final(self).donations@ == old(self).donations@,
            caller != old(self).platform.admin ==> r == Err::<CampaignPaused, ErrorCode>(
                ErrorCode::Unauthorized,
            ) && final(self).campaigns@ == old(self).campaigns@,
            caller == old(self).platform.admin ==> r == Ok::<CampaignPaused, ErrorCode>(
                CampaignPaused { campaign_id: campaign_id as u64 },
            ) && !final(self).campaigns@[campaign_id as int].is_active,
            final(self).campaigns@[campaign_id as int].is_active
                ==> old(self).campaigns@[campaign_id as int].is_active,
            forall|i: int|
                0 <= i < old(self).campaigns@.len() && i != campaign_id
                    ==> final(self).campaigns@[i] == old(self).campaigns@[i],
            final(self).campaigns@.len() == old(self).campaigns@.len(),
    {
        let r = crate::campaign::emergency_pause_campaign(
            &self.platform,
            &mut self.campaigns[campaign_id],
            caller,
        );
        proof {
            if r.is_err() {
                assert(self.campaigns@ =~= old(self).campaigns@);
            }
        }
        r
    }

    /// Tops up the matching pool of the campaign held under `campaign_id`,
    /// as `add_matching_funds` does.
    pub fn add_matching_funds(&mut self, campaign_id: usize, matcher: AccountId, amount: u64) -> (r:
        Result<MatchingFundsAdded, ErrorCode>)
        requires
            old(self).wf(),
            campaign_id < old(self).campaigns@.len(),
        ensures
            final(self).wf(),
            final(self).platform == old(self).platform,
            final(self).donations@ == old(self).donations@,
            r.is_err() ==> final(self).campaigns@ == old(self).campaigns@ && final(self).escrows@
                == old(self).escrows@,
            ({
                let campaign = old(self).campaigns@[campaign_id as int];
                let balance = old(self).escrows@[campaign_id as int].balance;
                &&& amount == 0 ==> r == Err::<MatchingFundsAdded, ErrorCode>(
                    ErrorCode::InvalidAmount,
                )
                &&& amount > 0 && !campaign.is_active ==> r == Err::<MatchingFundsAdded, ErrorCode>(
                    ErrorCode::CampaignInactive,
                )
                &&& amount > 0 && campaign.is_active && (campaign.matching_pool_total + amount
                    > u64::MAX || balance + amount > u64::MAX) ==> r == Err::<
                    MatchingFundsAdded,
                    ErrorCode,
                >(ErrorCode::ArithmeticOverflow)
                &&& amount > 0 && campaign.is_active && campaign.matching_pool_total + amount
                    <= u64::MAX && balance + amount <= u64::MAX ==> r.is_ok()
            }),
            r matches Ok(event) ==> ({
                let pre = old(self).campaigns@[campaign_id as int];
                let pre_escrow = old(self).escrows@[campaign_id as int];
                &&& final(self).campaigns@ == old(self).campaigns@.update(
                    campaign_id as int,
                    Campaign {
                        matching_pool_total: (pre.matching_pool_total + amount) as u64,
                        matching_pool_remaining: (pre.matching_pool_remaining + amount) as u64,
                        ..pre
                    },
                )
                &&& final(self).escrows@ == old(self).escrows@.update(
                    campaign_id as int,
                    Escrow {
                        campaign_id: pre_escrow.campaign_id,
                        balance: (pre_escrow.balance + amount) as u64,
                    },
                )
                &&& event == (MatchingFundsAdded {
                    campaign_id: pre.campaign_id,
                    matcher,
                    amount,
                })
            }),
    {
        let r = crate::campaign::add_matching_funds(
            &mut self.campaigns[campaign_id],
            &mut self.escrows[campaign_id],
            matcher,
            amount,
        );
        proof {
            if r.is_err() {
                assert(self.campaigns@ =~= old(self).campaigns@);
                assert(self.escrows@ =~= old(self).escrows@);
            }
        }
        r
    }
}

} // verus!
