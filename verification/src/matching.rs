//! The matching engine: computes the matched top-up for a donation.

use vstd::prelude::*;

use crate::errors::ErrorCode;

verus! {

/// The ratio-scaled match before capping: `floor(amount * ratio / 100)`.
pub open spec fn theoretical_match(amount: u64, ratio: u8) -> int {
    (amount as int) * (ratio as int) / 100
}

/// The matched amount for a donation: the ratio-scaled match, capped by
/// the remaining pool. Never exceeds `remaining`.
pub open spec fn match_amount(amount: u64, ratio: u8, remaining: u64) -> int {
    if theoretical_match(amount, ratio) <= remaining as int {
        theoretical_match(amount, ratio)
    } else {
        remaining as int
    }
}

/// The matched amount is never more than the remaining pool, and never
/// negative.
pub proof fn lemma_match_amount_bounded(amount: u64, ratio: u8, remaining: u64)
    ensures
        0 <= match_amount(amount, ratio, remaining) <= remaining,
{
    vstd::arithmetic::div_mod::lemma_div_pos_is_pos((amount as int) * (ratio as int), 100);
    vstd::arithmetic::mul::lemma_mul_nonnegative(amount as int, ratio as int);
}

/// Computes `min(floor(donation_amount * matching_ratio / 100),
/// remaining_pool)`. The ratio is applied before capping, so a large
/// donation against a small remaining pool yields exactly the remaining
/// pool, never more. Overflow of the intermediate product is a fatal
/// error for the donation, not silently clamped.
pub fn calculate_matching_amount(donation_amount: u64, matching_ratio: u8, remaining_pool: u64) -> (r:
    Result<u64, ErrorCode>)
    ensures
        (donation_amount as int) * (matching_ratio as int) > u64::MAX ==> r == Err::<
            u64,
            ErrorCode,
        >(ErrorCode::ArithmeticOverflow),
        (donation_amount as int) * (matching_ratio as int) <= u64::MAX ==> (r matches Ok(m)
            && m as int == match_amount(donation_amount, matching_ratio, remaining_pool)),
        r matches Ok(m) ==> m <= remaining_pool,
{
    match donation_amount.checked_mul(matching_ratio as u64) {
        Some(scaled) => {
            let theoretical = scaled / 100;
            if theoretical <= remaining_pool {
                Ok(theoretical)
            } else {
                Ok(remaining_pool)
            }
        },
        None => Err(ErrorCode::ArithmeticOverflow),
    }
}

} // verus!
