use tier_sol_miner::errors::MinerError;
use tier_sol_miner::math::{calculate_fee, calculate_interest, muldiv, to_u128, to_u64};

#[test]
fn muldiv_computes_product_over_divisor() {
    assert_eq!(muldiv(6, 7, 2), Some(21));
    assert_eq!(muldiv(1, 1, 3), Some(0));
    assert_eq!(muldiv(0, 123, 7), Some(0));
}

#[test]
fn muldiv_rejects_zero_divisor() {
    assert_eq!(muldiv(6, 7, 0), None);
}

#[test]
fn muldiv_rejects_wide_overflow() {
    assert_eq!(muldiv(u128::MAX, 2, 1), None);
}

#[test]
fn to_u128_widens() {
    assert_eq!(to_u128(0), Ok(0));
    assert_eq!(to_u128(u64::MAX), Ok(u64::MAX as u128));
}

#[test]
fn to_u64_narrows_at_the_boundary() {
    assert_eq!(to_u64(u64::MAX as u128), Ok(u64::MAX));
    assert_eq!(
        to_u64(u64::MAX as u128 + 1),
        Err(MinerError::ConversionFailure)
    );
}

#[test]
fn fee_of_one_million_at_one_percent() {
    assert_eq!(calculate_fee(1_000_000, 100), Ok(10_000));
}

#[test]
fn fee_rounds_down() {
    assert_eq!(calculate_fee(9_999, 1), Ok(0));
    assert_eq!(calculate_fee(10_001, 1), Ok(1));
}

#[test]
fn fee_at_full_rate_returns_the_amount() {
    // rate_bps == 10000 is the edge of the fee-never-exceeds-amount law
    assert_eq!(calculate_fee(123_456, 10_000), Ok(123_456));
}

#[test]
fn fee_never_exceeds_amount_at_rates_up_to_full() {
    let amounts: [u64; 4] = [0, 1, 987_654_321, u64::MAX];
    let rates: [u64; 5] = [0, 1, 100, 9_999, 10_000];
    for &amount in amounts.iter() {
        for &rate in rates.iter() {
            let fee = calculate_fee(amount as u128, rate as u128).unwrap();
            assert!(fee <= amount);
        }
    }
}

#[test]
fn fee_fails_conversion_when_it_cannot_fit() {
    // a rate over 10000 basis points pushes the fee past the 64-bit width
    assert_eq!(
        calculate_fee(u64::MAX as u128, 20_000),
        Err(MinerError::ConversionFailure)
    );
}

#[test]
fn fee_fails_maths_on_wide_overflow() {
    assert_eq!(
        calculate_fee(u128::MAX, u128::MAX),
        Err(MinerError::MathsError)
    );
}

#[test]
fn interest_of_the_reference_year() {
    // 990,000 at 10% over one year
    assert_eq!(calculate_interest(990_000, 1_000, 31_536_000), Ok(99_000));
}

#[test]
fn interest_is_zero_over_zero_elapsed() {
    assert_eq!(calculate_interest(990_000, 1_000, 0), Ok(0));
}

#[test]
fn interest_is_nonnegative_and_monotone_in_each_argument() {
    let base = calculate_interest(990_000, 1_000, 10_000).unwrap();
    let more_principal = calculate_interest(1_990_000, 1_000, 10_000).unwrap();
    let more_rate = calculate_interest(990_000, 2_000, 10_000).unwrap();
    let more_time = calculate_interest(990_000, 1_000, 20_000).unwrap();
    assert!(base <= more_principal);
    assert!(base <= more_rate);
    assert!(base <= more_time);
}

#[test]
fn interest_fails_maths_on_wide_overflow() {
    assert_eq!(
        calculate_interest(u64::MAX as u128, u64::MAX as u128, u64::MAX as u128),
        Err(MinerError::MathsError)
    );
}

#[test]
fn interest_fails_conversion_when_it_cannot_fit() {
    // the product fits the accumulator but the quotient does not fit 64 bits
    assert_eq!(
        calculate_interest(1_000_000_000_000_000_000, 1_000_000, 1_000_000_000),
        Err(MinerError::ConversionFailure)
    );
}
