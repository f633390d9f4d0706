//! Fee and interest arithmetic.
//!
//! All quantities are fixed-width integers. Intermediate products are taken in
//! a 128-bit accumulator and narrowed back to 64 bits at the end; every step
//! is checked and every failure is a typed error, so none of these functions
//! panics.

use vstd::prelude::*;

use crate::errors::MinerError;

verus! {

/// Basis-point denominator: a rate of 10000 basis points is 100%.
pub const BPS_DENOMINATOR: u64 = 10000;

/// Scaling constant of the simple-interest formula: `BPS_DENOMINATOR`
/// times 31,536,000, the seconds in a 365-day year. Dividing the product
/// `apy_bps * principal * elapsed_seconds` by it turns an annualized
/// basis-point rate into interest over the elapsed window.
pub const INTEREST_SCALE: u128 = 315_360_000_000;

/// The fee taken from `amount` at `rate_bps` basis points, as exact
/// mathematical integers: `amount * rate_bps / 10000`, rounded down.
pub open spec fn spec_fee(amount: int, rate_bps: int) -> int {
    amount * rate_bps / (BPS_DENOMINATOR as int)
}

/// Simple interest on `principal` at `apy_bps` basis points per year over
/// `elapsed` seconds, as exact mathematical integers: the full product is
/// taken first and divided by `INTEREST_SCALE` once, rounded down.
pub open spec fn spec_interest(principal: int, apy_bps: int, elapsed: int) -> int {
    apy_bps * principal * elapsed / (INTEREST_SCALE as int)
}

/// What `muldiv` returns: `a * b / c` when the product fits the accumulator
/// and the divisor is non-zero, `None` otherwise.
pub open spec fn spec_muldiv(a: u128, b: u128, c: u128) -> Option<u128> {
    if a as int * b as int > u128::MAX as int {
        None
    } else if c == 0 {
        None
    } else {
        Some((a as int * b as int / c as int) as u128)
    }
}

/// What `calculate_fee` returns: the basis-point fee when the wide product
/// fits the accumulator and the quotient fits 64 bits, a typed error
/// otherwise.
pub open spec fn fee_result(amount: u128, fee: u128) -> Result<u64, MinerError> {
    if amount as int * fee as int > u128::MAX as int {
        Err(MinerError::MathsError)
    } else if spec_fee(amount as int, fee as int) > u64::MAX as int {
        Err(MinerError::ConversionFailure)
    } else {
        Ok(spec_fee(amount as int, fee as int) as u64)
    }
}

/// What `calculate_interest` returns: the simple interest when both wide
/// products fit the accumulator and the quotient fits 64 bits, a typed error
/// otherwise.
pub open spec fn interest_result(amount: u128, apy: u128, interval: u128) -> Result<
    u64,
    MinerError,
> {
    if apy as int * amount as int > u128::MAX as int {
        Err(MinerError::MathsError)
    } else if apy as int * amount as int * interval as int > u128::MAX as int {
        Err(MinerError::MathsError)
    } else if spec_interest(amount as int, apy as int, interval as int) > u64::MAX as int {
        Err(MinerError::ConversionFailure)
    } else {
        Ok(spec_interest(amount as int, apy as int, interval as int) as u64)
    }
}

/// `a * b / c` in a 128-bit accumulator; `None` when the product overflows
/// the accumulator or `c` is zero.
pub fn muldiv(a: u128, b: u128, c: u128) -> (r: Option<u128>)
    ensures
        r == spec_muldiv(a, b, c),
{
    match a.checked_mul(b) {
        Some(p) => p.checked_div(c),
        None => None,
    }
}

/// Widens a 64-bit amount into the 128-bit accumulator; never fails.
pub fn to_u128(val: u64) -> (r: Result<u128, MinerError>)
    ensures
        r == Ok::<u128, MinerError>(val as u128),
{
    Ok(val as u128)
}

/// Narrows an accumulator value back to 64 bits; fails with
/// `ConversionFailure` when the value does not fit.
pub fn to_u64(val: u128) -> (r: Result<u64, MinerError>)
    ensures
        val <= u64::MAX ==> r == Ok::<u64, MinerError>(val as u64),
        val > u64::MAX ==> r == Err::<u64, MinerError>(MinerError::ConversionFailure),
{
    if val <= u64::MAX as u128 {
        Ok(val as u64)
    } else {
        Err(MinerError::ConversionFailure)
    }
}

/// The basis-point fee on `amount` at `fee` basis points:
/// `amount * fee / 10000` in the wide accumulator, narrowed to 64 bits.
/// Fails with `MathsError` when the wide product overflows and with
/// `ConversionFailure` when the quotient does not fit 64 bits.
pub fn calculate_fee(amount: u128, fee: u128) -> (r: Result<u64, MinerError>)
    ensures
        r == fee_result(amount, fee),
{
    match muldiv(amount, fee, BPS_DENOMINATOR as u128) {
        Some(val) => to_u64(val),
        None => Err(MinerError::MathsError),
    }
}

/// Simple interest on `amount` at `apy` basis points per year over `interval`
/// seconds: `apy * amount * interval / INTEREST_SCALE`, with the full product
/// taken in the wide accumulator before the single division, then narrowed to
/// 64 bits. Fails with `MathsError` when either wide product overflows and
/// with `ConversionFailure` when the quotient does not fit 64 bits.
pub fn calculate_interest(amount: u128, apy: u128, interval: u128) -> (r: Result<u64, MinerError>)
    ensures
        r == interest_result(amount, apy, interval),
{
    let scaled = match apy.checked_mul(amount) {
        Some(v) => v,
        None => {
            return Err(MinerError::MathsError);
        },
    };
    let total = match scaled.checked_mul(interval) {
        Some(v) => v,
        None => {
            return Err(MinerError::MathsError);
        },
    };
    to_u64(total / INTEREST_SCALE)
}

/// A fee at a rate of at most 10000 basis points never exceeds the amount it
/// is taken from.
pub proof fn lemma_fee_le_amount(amount: int, rate_bps: int)
    requires
        0 <= amount,
        0 <= rate_bps,
        rate_bps <= BPS_DENOMINATOR as int,
    ensures
        0 <= spec_fee(amount, rate_bps),
        spec_fee(amount, rate_bps) <= amount,
{
    let d = BPS_DENOMINATOR as int;
    assert(0 <= amount * rate_bps) by (nonlinear_arith)
        requires
            0 <= amount,
            0 <= rate_bps,
    ;
    assert(amount * rate_bps <= amount * d) by (nonlinear_arith)
        requires
            0 <= amount,
            rate_bps <= d,
    ;
    vstd::arithmetic::div_mod::lemma_div_is_ordered(amount * rate_bps, amount * d, d);
    vstd::arithmetic::div_mod::lemma_div_multiples_vanish(amount, d);
    vstd::arithmetic::div_mod::lemma_div_pos_is_pos(amount * rate_bps, d);
}

/// Interest over non-negative inputs is non-negative.
pub proof fn lemma_interest_nonneg(principal: int, apy_bps: int, elapsed: int)
    requires
        0 <= principal,
        0 <= apy_bps,
        0 <= elapsed,
    ensures
        0 <= spec_interest(principal, apy_bps, elapsed),
{
    assert(0 <= apy_bps * principal * elapsed) by (nonlinear_arith)
        requires
            0 <= principal,
            0 <= apy_bps,
            0 <= elapsed,
    ;
    vstd::arithmetic::div_mod::lemma_div_pos_is_pos(
        apy_bps * principal * elapsed,
        INTEREST_SCALE as int,
    );
}

/// Interest is monotonically non-decreasing in the principal, the rate and
/// the elapsed time, each independently and jointly.
pub proof fn lemma_interest_monotone(
    principal1: int,
    apy1: int,
    elapsed1: int,
    principal2: int,
    apy2: int,
    elapsed2: int,
)
    requires
        0 <= principal1 <= principal2,
        0 <= apy1 <= apy2,
        0 <= elapsed1 <= elapsed2,
    ensures
        spec_interest(principal1, apy1, elapsed1) <= spec_interest(principal2, apy2, elapsed2),
{
    assert(apy1 * principal1 * elapsed1 <= apy2 * principal2 * elapsed2) by (nonlinear_arith)
        requires
            0 <= principal1 <= principal2,
            0 <= apy1 <= apy2,
            0 <= elapsed1 <= elapsed2,
    ;
    vstd::arithmetic::div_mod::lemma_div_is_ordered(
        apy1 * principal1 * elapsed1,
        apy2 * principal2 * elapsed2,
        INTEREST_SCALE as int,
    );
}

} // verus!
