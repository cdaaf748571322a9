//! Withdrawal settlement: fee split and authorized release of the
//! campaign escrow.

use vstd::prelude::*;

use crate::campaign::Campaign;
use crate::errors::ErrorCode;
use crate::escrow::Escrow;
use crate::events::FundsWithdrawn;
use crate::platform::{AccountId, Platform};

verus! {

/// The platform's cut of a settled balance:
/// `floor(balance * fee_percentage / 10000)`.
pub open spec fn spec_fee(balance: u64, fee_percentage: u16) -> int {
    (balance as int) * (fee_percentage as int) / 10000
}

/// For any balance and any valid basis-points rate, the fee never exceeds
/// the balance, and the payout (balance less fee) together with the fee
/// gives back the balance exactly.
pub proof fn lemma_fee_split_exact(balance: u64, fee_percentage: u16)
    requires
        fee_percentage <= 10000,
    ensures
        0 <= spec_fee(balance, fee_percentage) <= balance,
        (balance - spec_fee(balance, fee_percentage)) + spec_fee(balance, fee_percentage)
            == balance,
{
    assert(0 <= spec_fee(balance, fee_percentage) <= balance) by (nonlinear_arith)
        requires
            fee_percentage <= 10000,
    ;
}

/// Whether withdrawal is unlocked: the campaign is already inactive, or
/// its end time has passed, or its goal is reached. The goal condition is
/// re-evaluated here even though donation processing deactivates the
/// campaign on reaching the goal: the check is deliberately not cached.
pub open spec fn withdraw_unlocked(campaign: Campaign, now: i64) -> bool {
    ||| !campaign.is_active
    ||| now > campaign.end_time
    ||| campaign.raised_amount >= campaign.goal_amount
}

/// Splits a balance into `(payout, fee)` with
/// `fee = floor(balance * fee_percentage / 10000)` and
/// `payout + fee == balance`. Overflow of the intermediate product is a
/// fatal error.
pub fn fee_breakdown(balance: u64, fee_percentage: u16) -> (r: Result<(u64, u64), ErrorCode>)
    requires
        fee_percentage <= 10000,
    ensures
        (balance as int) * (fee_percentage as int) > u64::MAX ==> r == Err::<(u64, u64), ErrorCode>(
            ErrorCode::ArithmeticOverflow,
        ),
        (balance as int) * (fee_percentage as int) <= u64::MAX ==> (r matches Ok(split)
            && split.1 as int == spec_fee(balance, fee_percentage) && split.0 + split.1
            == balance),
{
    let scaled = match balance.checked_mul(fee_percentage as u64) {
        Some(s) => s,
        None => {
            return Err(ErrorCode::ArithmeticOverflow);
        },
    };
    let fee = scaled / 10000;
    proof {
        lemma_fee_split_exact(balance, fee_percentage);
    }
    let payout = balance - fee;
    Ok((payout, fee))
}

/// Settles the campaign escrow: authorizes the caller, checks an unlock
/// condition, splits the balance into payout and platform fee, and drains
/// the escrow. The caller — beneficiary or creator — only authorizes the
/// settlement; the payout is always credited to the campaign's
/// beneficiary. The transfers themselves (payout to the beneficiary's
/// custody, fee to the platform fee custody) are authorized by the
/// escrow's campaign-scoped system authority and carried out by the
/// surrounding transfer collaborator with the amounts reported here.
/// The campaign record itself is untouched: a drained campaign keeps its
/// ledger fields as a permanent historical record, and a second
/// withdrawal fails on the empty escrow.
pub fn withdraw_funds(
    platform: &Platform,
    campaign: &Campaign,
    escrow: &mut Escrow,
    caller: AccountId,
    now: i64,
) -> (r: Result<FundsWithdrawn, ErrorCode>)
    requires
        platform.wf(),
        old(escrow).campaign_id == campaign.campaign_id,
    ensures
        r.is_err() ==> *final(escrow) == *old(escrow),
        caller != campaign.beneficiary && caller != campaign.creator ==> r == Err::<
            FundsWithdrawn,
            ErrorCode,
        >(ErrorCode::UnauthorizedWithdrawal),
        (caller == campaign.beneficiary || caller == campaign.creator) && !withdraw_unlocked(
            *campaign,
            now,
        ) ==> r == Err::<FundsWithdrawn, ErrorCode>(ErrorCode::CampaignStillActive),
        (caller == campaign.beneficiary || caller == campaign.creator) && withdraw_unlocked(
            *campaign,
            now,
        ) && old(escrow).balance == 0 ==> r == Err::<FundsWithdrawn, ErrorCode>(
            ErrorCode::NoFundsToWithdraw,
        ),
        (caller == campaign.beneficiary || caller == campaign.creator) && withdraw_unlocked(
            *campaign,
            now,
        ) && old(escrow).balance > 0 && (old(escrow).balance as int) * (
        platform.fee_percentage as int) > u64::MAX ==> r == Err::<FundsWithdrawn, ErrorCode>(
            ErrorCode::ArithmeticOverflow,
        ),
        (caller == campaign.beneficiary || caller == campaign.creator) && withdraw_unlocked(
            *campaign,
            now,
        ) && old(escrow).balance > 0 && (old(escrow).balance as int) * (
        platform.fee_percentage as int) <= u64::MAX ==> r.is_ok(),
        r matches Ok(event) ==> ({
            let fee = spec_fee(old(escrow).balance, platform.fee_percentage);
            &&& event == (FundsWithdrawn {
                campaign_id: campaign.campaign_id,
                beneficiary: campaign.beneficiary,
                amount: (old(escrow).balance - fee) as u64,
                platform_fee: fee as u64,
            })
            &&& event.amount + event.platform_fee == old(escrow).balance
            &&& final(escrow).balance == 0
            &&& final(escrow).campaign_id == old(escrow).campaign_id
        }),
{
    if !(caller == campaign.beneficiary || caller == campaign.creator) {
        return Err(ErrorCode::UnauthorizedWithdrawal);
    }
    let unlocked = !campaign.is_active || now > campaign.end_time || campaign.raised_amount
        >= campaign.goal_amount;
    if !unlocked {
        return Err(ErrorCode::CampaignStillActive);
    }
    if escrow.balance == 0 {
        return Err(ErrorCode::NoFundsToWithdraw);
    }
    let (payout, fee) = match fee_breakdown(escrow.balance, platform.fee_percentage) {
        Ok(split) => split,
        Err(e) => {
            return Err(e);
        },
    };
    escrow.drain();
    Ok(FundsWithdrawn {
        campaign_id: campaign.campaign_id,
        beneficiary: campaign.beneficiary,
        amount: payout,
        platform_fee: fee,
    })
}

} // verus!
