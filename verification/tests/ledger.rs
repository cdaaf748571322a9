//! End-to-end tests of the campaign ledger: creation, donations,
//! lifecycle, and settlement.

use donation_matching::campaign::{
    add_matching_funds, create_campaign, emergency_pause_campaign, Campaign,
};
use donation_matching::donation::donate;
use donation_matching::errors::ErrorCode;
use donation_matching::escrow::Escrow;
use donation_matching::events::GoalReached;
use donation_matching::platform::{initialize_platform, Platform};
use donation_matching::settlement::{fee_breakdown, withdraw_funds};

const ADMIN: u64 = 1;
const CREATOR: u64 = 2;
const BENEFICIARY: u64 = 3;
const DONOR: u64 = 4;
const MATCHER: u64 = 5;
const STRANGER: u64 = 6;

const NOW: i64 = 50;
const DURATION: i64 = 100;

/// Platform plus a fresh campaign: goal 1000, pool 200, 1:1 matching,
/// created at time 50 with end time 150.
fn setup() -> (Platform, Campaign, Escrow) {
    let mut platform = initialize_platform(ADMIN);
    let (campaign, escrow, _event) = create_campaign(
        &mut platform,
        CREATOR,
        1000,
        200,
        DURATION,
        String::from("Save the bees"),
        String::from("Community fund drive"),
        100,
        BENEFICIARY,
        NOW,
    )
    .unwrap();
    (platform, campaign, escrow)
}

#[test]
fn platform_initialization_defaults() {
    let platform = initialize_platform(ADMIN);
    assert_eq!(platform.admin, ADMIN);
    assert_eq!(platform.fee_percentage, 250);
    assert_eq!(platform.total_campaigns, 0);
    assert_eq!(platform.total_raised, 0);
}

#[test]
fn campaign_creation_populates_record() {
    let (platform, campaign, escrow) = setup();
    assert_eq!(platform.total_campaigns, 1);
    assert_eq!(campaign.campaign_id, 0);
    assert_eq!(campaign.creator, CREATOR);
    assert_eq!(campaign.beneficiary, BENEFICIARY);
    assert_eq!(campaign.goal_amount, 1000);
    assert_eq!(campaign.raised_amount, 0);
    assert_eq!(campaign.matching_pool_total, 200);
    assert_eq!(campaign.matching_pool_remaining, 200);
    assert_eq!(campaign.matching_ratio, 100);
    assert_eq!(campaign.title, "Save the bees");
    assert_eq!(campaign.created_at, NOW);
    assert_eq!(campaign.end_time, NOW + DURATION);
    assert!(campaign.is_active);
    assert_eq!(campaign.total_donors, 0);
    // The matching pool moved into the campaign escrow.
    assert_eq!(escrow.campaign_id, campaign.campaign_id);
    assert_eq!(escrow.balance, 200);
}

#[test]
fn campaign_creation_event() {
    let mut platform = initialize_platform(ADMIN);
    let (_, _, event) = create_campaign(
        &mut platform,
        CREATOR,
        1000,
        200,
        DURATION,
        String::new(),
        String::new(),
        100,
        BENEFICIARY,
        NOW,
    )
    .unwrap();
    assert_eq!(event.campaign_id, 0);
    assert_eq!(event.creator, CREATOR);
    assert_eq!(event.goal_amount, 1000);
    assert_eq!(event.matching_pool_amount, 200);
}

#[test]
fn campaign_ids_are_sequential() {
    let mut platform = initialize_platform(ADMIN);
    for expected_id in 0..3u64 {
        let (campaign, _, _) = create_campaign(
            &mut platform,
            CREATOR,
            1000,
            200,
            DURATION,
            String::new(),
            String::new(),
            100,
            BENEFICIARY,
            NOW,
        )
        .unwrap();
        assert_eq!(campaign.campaign_id, expected_id);
        assert_eq!(platform.total_campaigns, expected_id + 1);
    }
}

#[test]
fn campaign_creation_validation_order() {
    let mut platform = initialize_platform(ADMIN);
    let long_title: String = "t".repeat(101);
    let long_description: String = "d".repeat(501);
    let cases: Vec<(u64, u64, i64, String, String, u8, ErrorCode)> = vec![
        (0, 200, DURATION, String::new(), String::new(), 100, ErrorCode::InvalidGoalAmount),
        (1000, 0, DURATION, String::new(), String::new(), 100, ErrorCode::InvalidMatchingAmount),
        (1000, 200, DURATION, String::new(), String::new(), 0, ErrorCode::InvalidMatchingRatio),
        (1000, 200, DURATION, String::new(), String::new(), 201, ErrorCode::InvalidMatchingRatio),
        (1000, 200, 0, String::new(), String::new(), 100, ErrorCode::InvalidDuration),
        (1000, 200, -5, String::new(), String::new(), 100, ErrorCode::InvalidDuration),
        (1000, 200, DURATION, long_title, String::new(), 100, ErrorCode::TitleTooLong),
        (1000, 200, DURATION, String::new(), long_description, 100, ErrorCode::DescriptionTooLong),
    ];
    for (goal, pool, duration, title, description, ratio, expected) in cases {
        let r = create_campaign(
            &mut platform,
            CREATOR,
            goal,
            pool,
            duration,
            title,
            description,
            ratio,
            BENEFICIARY,
            NOW,
        );
        assert_eq!(r.unwrap_err(), expected);
        // Rejected before any state mutation.
        assert_eq!(platform.total_campaigns, 0);
    }
}

#[test]
fn boundary_lengths_and_ratio_accepted() {
    let mut platform = initialize_platform(ADMIN);
    let r = create_campaign(
        &mut platform,
        CREATOR,
        1,
        1,
        1,
        "t".repeat(100),
        "d".repeat(500),
        200,
        BENEFICIARY,
        NOW,
    );
    assert!(r.is_ok());
}

#[test]
fn donation_updates_all_totals() {
    let (mut platform, mut campaign, mut escrow) = setup();
    let (record, event, goal_event) =
        donate(&mut platform, &mut campaign, &mut escrow, DONOR, 150, NOW + 10).unwrap();
    // Pool sufficient at 1:1: matched equals the donation.
    assert_eq!(record.donor, DONOR);
    assert_eq!(record.campaign, campaign.campaign_id);
    assert_eq!(record.amount, 150);
    assert_eq!(record.matching_amount, 150);
    assert_eq!(record.total_amount, 300);
    assert_eq!(record.timestamp, NOW + 10);
    assert_eq!(event.campaign_id, campaign.campaign_id);
    assert_eq!(event.donor, DONOR);
    assert_eq!(event.amount, 150);
    assert_eq!(event.matching_amount, 150);
    assert_eq!(event.total_amount, 300);
    assert!(goal_event.is_none());
    assert_eq!(campaign.raised_amount, 300);
    assert_eq!(campaign.matching_pool_remaining, 50);
    assert_eq!(campaign.total_donors, 1);
    assert!(campaign.is_active);
    assert_eq!(platform.total_raised, 300);
    // Only the donor's own contribution enters the escrow; the matched
    // part was already resident from pool funding.
    assert_eq!(escrow.balance, 350);
}

#[test]
fn donation_match_capped_by_remaining_pool() {
    let (mut platform, mut campaign, mut escrow) = setup();
    donate(&mut platform, &mut campaign, &mut escrow, DONOR, 150, NOW + 10).unwrap();
    // Theoretical match would be 100 but only 50 remains in the pool.
    let (record, _, _) =
        donate(&mut platform, &mut campaign, &mut escrow, DONOR, 100, NOW + 11).unwrap();
    assert_eq!(record.matching_amount, 50);
    assert_eq!(record.total_amount, 150);
    assert_eq!(campaign.raised_amount, 450);
    assert_eq!(campaign.matching_pool_remaining, 0);
    assert_eq!(campaign.total_donors, 2);
    // A further donation gets no match at all.
    let (record, _, _) =
        donate(&mut platform, &mut campaign, &mut escrow, DONOR, 40, NOW + 12).unwrap();
    assert_eq!(record.matching_amount, 0);
    assert_eq!(campaign.raised_amount, 490);
}

#[test]
fn donation_rejections_leave_state_unchanged() {
    let (mut platform, mut campaign, mut escrow) = setup();

    // Zero amount.
    let r = donate(&mut platform, &mut campaign, &mut escrow, DONOR, 0, NOW + 1);
    assert_eq!(r.unwrap_err(), ErrorCode::InvalidDonationAmount);
    assert_eq!(campaign.raised_amount, 0);

    // Past the end time, even with a positive amount.
    let r = donate(&mut platform, &mut campaign, &mut escrow, DONOR, 10, NOW + DURATION + 1);
    assert_eq!(r.unwrap_err(), ErrorCode::CampaignExpired);
    assert_eq!(campaign.raised_amount, 0);
    assert_eq!(campaign.total_donors, 0);
    assert_eq!(platform.total_raised, 0);
    assert_eq!(escrow.balance, 200);

    // Exactly at the end time the donation is still accepted.
    let r = donate(&mut platform, &mut campaign, &mut escrow, DONOR, 10, NOW + DURATION);
    assert!(r.is_ok());

    // Paused campaign.
    emergency_pause_campaign(&platform, &mut campaign, ADMIN).unwrap();
    let raised_before = campaign.raised_amount;
    let r = donate(&mut platform, &mut campaign, &mut escrow, DONOR, 10, NOW + 2);
    assert_eq!(r.unwrap_err(), ErrorCode::CampaignInactive);
    assert_eq!(campaign.raised_amount, raised_before);
}

#[test]
fn donation_rejected_once_goal_reached() {
    let (mut platform, mut campaign, mut escrow) = setup();
    // 600 + 200 matched = 800 and empties the pool; then an unmatched
    // 200 reaches 1000 exactly.
    donate(&mut platform, &mut campaign, &mut escrow, DONOR, 600, NOW + 1).unwrap();
    assert!(campaign.is_active);
    assert_eq!(campaign.matching_pool_remaining, 0);
    let (_, _, goal_event) =
        donate(&mut platform, &mut campaign, &mut escrow, DONOR, 200, NOW + 2).unwrap();
    assert_eq!(
        goal_event,
        Some(GoalReached { campaign_id: campaign.campaign_id, final_amount: 1000 })
    );
    assert_eq!(campaign.raised_amount, 1000);
    assert!(!campaign.is_active);
    // The campaign deactivated on the crossing donation, so the next
    // attempt fails the activity check.
    let r = donate(&mut platform, &mut campaign, &mut escrow, DONOR, 10, NOW + 3);
    assert_eq!(r.unwrap_err(), ErrorCode::CampaignInactive);
}

#[test]
fn goal_overshoot_reported_in_full() {
    let (mut platform, mut campaign, mut escrow) = setup();
    // 900 + 200 matched = 1100 overshoots the 1000 goal in one donation.
    let (_, _, goal_event) =
        donate(&mut platform, &mut campaign, &mut escrow, DONOR, 900, NOW + 1).unwrap();
    assert_eq!(
        goal_event,
        Some(GoalReached { campaign_id: campaign.campaign_id, final_amount: 1100 })
    );
    assert!(!campaign.is_active);
}

#[test]
fn donation_overflow_is_fatal_without_mutation() {
    let mut platform = initialize_platform(ADMIN);
    let (mut campaign, mut escrow, _) = create_campaign(
        &mut platform,
        CREATOR,
        u64::MAX,
        1,
        DURATION,
        String::new(),
        String::new(),
        200,
        BENEFICIARY,
        NOW,
    )
    .unwrap();
    // amount * 200 overflows the intermediate product.
    let huge = u64::MAX / 100;
    let r = donate(&mut platform, &mut campaign, &mut escrow, DONOR, huge, NOW + 1);
    assert_eq!(r.unwrap_err(), ErrorCode::ArithmeticOverflow);
    assert_eq!(campaign.raised_amount, 0);
    assert_eq!(campaign.total_donors, 0);
    assert_eq!(platform.total_raised, 0);
    assert_eq!(escrow.balance, 1);
}

#[test]
fn emergency_pause_requires_admin_and_is_one_way() {
    let (platform, mut campaign, _escrow) = setup();
    let r = emergency_pause_campaign(&platform, &mut campaign, STRANGER);
    assert_eq!(r.unwrap_err(), ErrorCode::Unauthorized);
    assert!(campaign.is_active);

    let event = emergency_pause_campaign(&platform, &mut campaign, ADMIN).unwrap();
    assert_eq!(event.campaign_id, campaign.campaign_id);
    assert!(!campaign.is_active);

    // Pausing again is accepted and leaves the campaign inactive; no
    // operation ever reactivates it.
    emergency_pause_campaign(&platform, &mut campaign, ADMIN).unwrap();
    assert!(!campaign.is_active);
}

#[test]
fn add_matching_funds_grows_pool_and_escrow() {
    let (_platform, mut campaign, mut escrow) = setup();
    let event = add_matching_funds(&mut campaign, &mut escrow, MATCHER, 300).unwrap();
    assert_eq!(event.campaign_id, campaign.campaign_id);
    assert_eq!(event.matcher, MATCHER);
    assert_eq!(event.amount, 300);
    assert_eq!(campaign.matching_pool_total, 500);
    assert_eq!(campaign.matching_pool_remaining, 500);
    assert_eq!(escrow.balance, 500);
}

#[test]
fn add_matching_funds_rejections() {
    let (platform, mut campaign, mut escrow) = setup();
    let r = add_matching_funds(&mut campaign, &mut escrow, MATCHER, 0);
    assert_eq!(r.unwrap_err(), ErrorCode::InvalidAmount);
    assert_eq!(campaign.matching_pool_total, 200);

    emergency_pause_campaign(&platform, &mut campaign, ADMIN).unwrap();
    let r = add_matching_funds(&mut campaign, &mut escrow, MATCHER, 10);
    assert_eq!(r.unwrap_err(), ErrorCode::CampaignInactive);
    assert_eq!(campaign.matching_pool_total, 200);
    assert_eq!(escrow.balance, 200);
}

#[test]
fn fee_split_formula() {
    // fee_percentage 250 on a balance of 10000: fee 250, payout 9750.
    assert_eq!(fee_breakdown(10000, 250), Ok((9750, 250)));
    // Flooring: 999 * 250 / 10000 = floor(24.975) = 24.
    assert_eq!(fee_breakdown(999, 250), Ok((975, 24)));
    // Zero-fee platform keeps everything for the beneficiary.
    assert_eq!(fee_breakdown(10000, 0), Ok((10000, 0)));
    // Full-fee edge: everything goes to the platform.
    assert_eq!(fee_breakdown(10000, 10000), Ok((0, 10000)));
    // Payout and fee always give back the balance exactly.
    for balance in [0u64, 1, 39, 40, 9999, 10000, 123_456_789] {
        let (payout, fee) = fee_breakdown(balance, 250).unwrap();
        assert_eq!(payout + fee, balance);
        assert_eq!(fee, balance * 250 / 10000);
    }
}

#[test]
fn withdrawal_settles_and_drains_escrow() {
    let (mut platform, mut campaign, mut escrow) = setup();
    // Bring the escrow to a round balance, then reach the goal.
    donate(&mut platform, &mut campaign, &mut escrow, DONOR, 9800, NOW + 1).unwrap();
    assert!(!campaign.is_active);
    assert_eq!(escrow.balance, 10000);
    let event = withdraw_funds(&platform, &campaign, &mut escrow, BENEFICIARY, NOW + 2).unwrap();
    assert_eq!(event.campaign_id, campaign.campaign_id);
    assert_eq!(event.beneficiary, BENEFICIARY);
    assert_eq!(event.amount, 9750);
    assert_eq!(event.platform_fee, 250);
    assert_eq!(escrow.balance, 0);
    // The campaign record survives as history.
    assert_eq!(campaign.raised_amount, 10000);
}

#[test]
fn withdrawal_twice_fails_on_drained_escrow() {
    let (mut platform, mut campaign, mut escrow) = setup();
    donate(&mut platform, &mut campaign, &mut escrow, DONOR, 9800, NOW + 1).unwrap();
    withdraw_funds(&platform, &campaign, &mut escrow, BENEFICIARY, NOW + 2).unwrap();
    let r = withdraw_funds(&platform, &campaign, &mut escrow, BENEFICIARY, NOW + 3);
    assert_eq!(r.unwrap_err(), ErrorCode::NoFundsToWithdraw);
}

#[test]
fn withdrawal_authorization_and_unlock() {
    let (platform, campaign, mut escrow) = setup();
    // A stranger may not withdraw, however the campaign stands.
    let r = withdraw_funds(&platform, &campaign, &mut escrow, STRANGER, NOW + 1);
    assert_eq!(r.unwrap_err(), ErrorCode::UnauthorizedWithdrawal);
    // The beneficiary may not withdraw while the campaign is active,
    // unexpired and short of its goal.
    let r = withdraw_funds(&platform, &campaign, &mut escrow, BENEFICIARY, NOW + 1);
    assert_eq!(r.unwrap_err(), ErrorCode::CampaignStillActive);
    assert_eq!(escrow.balance, 200);
    // Expiry unlocks withdrawal even though the campaign is still marked
    // active, and the creator is authorized too — but the payout is still
    // credited to the campaign's beneficiary, not to the caller.
    let event =
        withdraw_funds(&platform, &campaign, &mut escrow, CREATOR, NOW + DURATION + 1).unwrap();
    assert_eq!(event.beneficiary, BENEFICIARY);
    assert_eq!(event.amount + event.platform_fee, 200);
    assert_eq!(escrow.balance, 0);
}

#[test]
fn pause_unlocks_withdrawal() {
    let (platform, mut campaign, mut escrow) = setup();
    emergency_pause_campaign(&platform, &mut campaign, ADMIN).unwrap();
    let event = withdraw_funds(&platform, &campaign, &mut escrow, BENEFICIARY, NOW + 1).unwrap();
    assert_eq!(event.amount + event.platform_fee, 200);
}

#[test]
fn error_messages() {
    assert_eq!(ErrorCode::GoalReached.message(), "Goal already reached");
    assert_eq!(ErrorCode::ArithmeticOverflow.message(), "Arithmetic overflow");
    assert_eq!(ErrorCode::NoFundsToWithdraw.message(), "No funds to withdraw");
}
