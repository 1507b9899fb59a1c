//! How many points a staked amount earns over a span of time.
//!
//! Points are counted in millionths ("micro-points"). One whole SOL staked for
//! one whole day earns one point, that is `POINTS_PER_SOL_PER_DAY` micro-points.

use vstd::prelude::*;
use crate::error::StakeError;

verus! {

/// Micro-points earned by one SOL staked for one day.
pub const POINTS_PER_SOL_PER_DAY: u64 = 1_000_000;

/// Lamports in one SOL.
pub const LAMPORTS_PER_SOL: u64 = 1_000_000_000;

/// Seconds in one day.
pub const SECONDS_PER_DAY: u64 = 86_400;

/// Micro-points in one whole point.
pub const MICRO_POINTS_PER_POINT: u64 = 1_000_000;

/// The micro-points earned by `staked_amount` lamports over `elapsed_seconds`:
/// the product of amount, time and rate, divided by lamports per SOL times
/// seconds per day, rounded down.
pub open spec fn accrued_points(staked_amount: int, elapsed_seconds: int) -> int {
    (staked_amount * elapsed_seconds * POINTS_PER_SOL_PER_DAY as int) / (LAMPORTS_PER_SOL as int
        * SECONDS_PER_DAY as int)
}

/// What `calculate_points` returns: the accrued points where they fit in 64
/// bits, `Overflow` where they do not.
pub open spec fn calculate_points_spec(staked_amount: u64, elapsed_seconds: u64) -> Result<
    u64,
    StakeError,
> {
    let points = accrued_points(staked_amount as int, elapsed_seconds as int);
    if points <= u64::MAX {
        Ok(points as u64)
    } else {
        Err(StakeError::Overflow)
    }
}

/// Nothing staked, or no time gone by, earns nothing.
pub proof fn lemma_accrued_points_zero(staked_amount: int, elapsed_seconds: int)
    ensures
        staked_amount == 0 || elapsed_seconds == 0 ==> accrued_points(
            staked_amount,
            elapsed_seconds,
        ) == 0,
{
    if staked_amount == 0 || elapsed_seconds == 0 {
        assert(staked_amount * elapsed_seconds == 0) by (nonlinear_arith)
            requires
                staked_amount == 0 || elapsed_seconds == 0,
        ;
    }
}

/// The product of two 64-bit numbers fits in 128 bits.
proof fn lemma_product_fits(a: u64, b: u64)
    ensures
        0 <= a * b <= u128::MAX,
{
    assert(0 <= a * b <= 0xffff_ffff_ffff_ffff * 0xffff_ffff_ffff_ffff) by (nonlinear_arith)
        requires
            0 <= a <= 0xffff_ffff_ffff_ffff,
            0 <= b <= 0xffff_ffff_ffff_ffff,
    ;
}

/// Computes the micro-points earned by `staked_amount` lamports staked for
/// `time_elapsed_seconds`.
///
/// The products are formed in 128 bits, so nothing wraps before the division.
/// The quotient is rounded down. A quotient that does not fit in 64 bits is an
/// `Overflow`. Where either argument is zero the result is zero and nothing is
/// multiplied.
pub fn calculate_points(staked_amount: u64, time_elapsed_seconds: u64) -> (result: Result<
    u64,
    StakeError,
>)
    ensures
        result == calculate_points_spec(staked_amount, time_elapsed_seconds),
{
    if staked_amount == 0 || time_elapsed_seconds == 0 {
        proof {
            lemma_accrued_points_zero(staked_amount as int, time_elapsed_seconds as int);
        }
        return Ok(0);
    }
    let denominator: u128 = match (LAMPORTS_PER_SOL as u128).checked_mul(SECONDS_PER_DAY as u128) {
        Some(d) => d,
        None => {
            return Err(StakeError::Overflow);
        },
    };
    proof {
        lemma_product_fits(staked_amount, time_elapsed_seconds);
    }
    let product: u128 = match (staked_amount as u128).checked_mul(time_elapsed_seconds as u128) {
        Some(p) => p,
        None => {
            return Err(StakeError::Overflow);
        },
    };
    let numerator: u128 = match product.checked_mul(POINTS_PER_SOL_PER_DAY as u128) {
        Some(n) => n,
        None => {
            return Err(StakeError::Overflow);
        },
    };
    let points: u128 = match numerator.checked_div(denominator) {
        Some(q) => q,
        None => {
            return Err(StakeError::Overflow);
        },
    };
    if points > u64::MAX as u128 {
        return Err(StakeError::Overflow);
    }
    Ok(points as u64)
}

/// The whole points in `total_points` micro-points: the part that can be
/// claimed. What is left of a point is dropped.
pub fn claimable_points(total_points: u64) -> (result: u64)
    ensures
        result == total_points / MICRO_POINTS_PER_POINT,
{
    total_points / MICRO_POINTS_PER_POINT
}

} // verus!
