//! Tests for the matching-amount computation.

use donation_matching::errors::ErrorCode;
use donation_matching::matching::calculate_matching_amount;

#[test]
fn match_is_min_of_scaled_and_pool() {
    // Pool sufficient: 150 * 100 / 100 = 150 <= 200.
    assert_eq!(calculate_matching_amount(150, 100, 200), Ok(150));
    // Pool caps the match: 100 * 100 / 100 = 100 > 50.
    assert_eq!(calculate_matching_amount(100, 100, 50), Ok(50));
    // Flooring: 7 * 33 / 100 = floor(2.31) = 2.
    assert_eq!(calculate_matching_amount(7, 33, 1000), Ok(2));
    // Half matching: 101 * 50 / 100 = 50.
    assert_eq!(calculate_matching_amount(101, 50, 1000), Ok(50));
    // A huge donation against a small pool yields the pool exactly.
    assert_eq!(calculate_matching_amount(1_000_000, 200, 10), Ok(10));
    // Zero remaining pool yields zero.
    assert_eq!(calculate_matching_amount(500, 100, 0), Ok(0));
}

#[test]
fn match_never_exceeds_pool() {
    let pools = [0u64, 1, 49, 50, 199, 200, u64::MAX];
    for &pool in pools.iter() {
        let matched = calculate_matching_amount(12345, 200, pool).unwrap();
        assert!(matched <= pool);
    }
}

#[test]
fn match_overflow_is_fatal() {
    // u64::MAX * 2 overflows the intermediate product.
    assert_eq!(
        calculate_matching_amount(u64::MAX, 2, 100),
        Err(ErrorCode::ArithmeticOverflow)
    );
    // The same donation with ratio 1 fits.
    assert_eq!(
        calculate_matching_amount(u64::MAX, 1, 100),
        Ok(100)
    );
}
