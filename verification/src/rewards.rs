use vstd::prelude::*;

use crate::errors::StakeError;

verus! {

/// Micro-points earned per staking unit per day.
pub const RATE_PER_DAY: u64 = 1_000_000;

/// Base units per staking unit (the denomination deposits are counted in).
pub const SCALE_PER_UNIT: u64 = 1_000_000_000;

/// Seconds in one day.
pub const SECONDS_PER_DAY: u64 = 86_400;

/// Micro-points per whole reward point.
pub const MICRO_POINTS_PER_POINT: u64 = 1_000_000;

/// The exact reward formula, over unbounded integers:
/// `floor(amount * elapsed * RATE_PER_DAY / SCALE_PER_UNIT / SECONDS_PER_DAY)`.
pub open spec fn micro_points(amount: int, elapsed: int) -> int {
    amount * elapsed * (RATE_PER_DAY as int) / (SCALE_PER_UNIT as int) / (SECONDS_PER_DAY as int)
}

/// Whether the widest intermediate of the reward computation, the triple
/// product, stays within the 128-bit working type. The first partial product
/// of two 64-bit inputs always fits; only the step up to the triple product
/// can overflow.
pub open spec fn points_fit_wide(amount: int, elapsed: int) -> bool {
    amount * elapsed * (RATE_PER_DAY as int) <= u128::MAX
}

/// The reward formula as the 64-bit computation delivers it: the exact value,
/// truncated to the low 64 bits.
pub open spec fn micro_points_u64(amount: int, elapsed: int) -> u64 {
    (micro_points(amount, elapsed) % (u64::MAX as int + 1)) as u64
}

/// Points earned by `staked_amount` base units over `time_elapsed_seconds`.
///
/// Carries the intermediates in 128 bits and fails with `ArithmeticOverflow`
/// exactly when the triple product would not fit there; the final quotient is
/// truncated to 64 bits.
pub fn calculate_points_earned(staked_amount: u64, time_elapsed_seconds: u64) -> (r: Result<
    u64,
    StakeError,
>)
    ensures
        r is Ok <==> points_fit_wide(staked_amount as int, time_elapsed_seconds as int),
        r matches Ok(p) ==> p == micro_points_u64(
            staked_amount as int,
            time_elapsed_seconds as int,
        ),
        r matches Err(e) ==> e == StakeError::ArithmeticOverflow,
{
    proof {
        vstd::arithmetic::mul::lemma_mul_upper_bound(
            staked_amount as int,
            u64::MAX as int,
            time_elapsed_seconds as int,
            u64::MAX as int,
        );
    }
    let product = match (staked_amount as u128).checked_mul(time_elapsed_seconds as u128) {
        Some(p) => p,
        None => {
            return Err(StakeError::ArithmeticOverflow);
        },
    };
    let scaled = match product.checked_mul(RATE_PER_DAY as u128) {
        Some(s) => s,
        None => {
            return Err(StakeError::ArithmeticOverflow);
        },
    };
    let per_unit = match scaled.checked_div(SCALE_PER_UNIT as u128) {
        Some(q) => q,
        None => {
            return Err(StakeError::ArithmeticOverflow);
        },
    };
    let points = match per_unit.checked_div(SECONDS_PER_DAY as u128) {
        Some(q) => q,
        None => {
            return Err(StakeError::ArithmeticOverflow);
        },
    };
    proof {
        assert(points as u64 == points % 0x1_0000_0000_0000_0000u128) by (bit_vector);
    }
    Ok(#[verifier::truncate] (points as u64))
}

/// Reward accrual is monotone: raising the staked amount or the elapsed time
/// never lowers the earned micro-points.
pub proof fn lemma_micro_points_monotonic(a1: int, e1: int, a2: int, e2: int)
    requires
        0 <= a1 <= a2,
        0 <= e1 <= e2,
    ensures
        micro_points(a1, e1) <= micro_points(a2, e2),
{
    vstd::arithmetic::mul::lemma_mul_inequality(a1, a2, e1);
    vstd::arithmetic::mul::lemma_mul_is_commutative(a2, e1);
    vstd::arithmetic::mul::lemma_mul_is_commutative(a2, e2);
    vstd::arithmetic::mul::lemma_mul_inequality(e1, e2, a2);
    vstd::arithmetic::mul::lemma_mul_inequality(a1 * e1, a2 * e2, RATE_PER_DAY as int);
    vstd::arithmetic::div_mod::lemma_div_is_ordered(
        a1 * e1 * (RATE_PER_DAY as int),
        a2 * e2 * (RATE_PER_DAY as int),
        SCALE_PER_UNIT as int,
    );
    vstd::arithmetic::div_mod::lemma_div_is_ordered(
        a1 * e1 * (RATE_PER_DAY as int) / (SCALE_PER_UNIT as int),
        a2 * e2 * (RATE_PER_DAY as int) / (SCALE_PER_UNIT as int),
        SECONDS_PER_DAY as int,
    );
}

/// No stake, or no elapsed time, earns nothing.
pub proof fn lemma_micro_points_zero(a: int, e: int)
    requires
        0 <= a,
        0 <= e,
    ensures
        micro_points(a, 0) == 0,
        micro_points(0, e) == 0,
        micro_points_u64(a, 0) == 0,
        micro_points_u64(0, e) == 0,
        points_fit_wide(a, 0),
        points_fit_wide(0, e),
{
}

/// The earned micro-points are never negative.
pub proof fn lemma_micro_points_nonneg(a: int, e: int)
    requires
        0 <= a,
        0 <= e,
    ensures
        0 <= micro_points(a, e),
{
    vstd::arithmetic::mul::lemma_mul_nonnegative(a, e);
    vstd::arithmetic::mul::lemma_mul_nonnegative(a * e, RATE_PER_DAY as int);
    vstd::arithmetic::div_mod::lemma_div_pos_is_pos(
        a * e * (RATE_PER_DAY as int),
        SCALE_PER_UNIT as int,
    );
    vstd::arithmetic::div_mod::lemma_div_pos_is_pos(
        a * e * (RATE_PER_DAY as int) / (SCALE_PER_UNIT as int),
        SECONDS_PER_DAY as int,
    );
}

/// Monotonicity as [`calculate_points_earned`] delivers it: raising the
/// staked amount or the elapsed time never lowers the computed micro-points,
/// as long as the larger call's exact value still fits in 64 bits (beyond
/// that the computed value is truncated and the ordering is forfeited with
/// the overflowing dust).
pub proof fn lemma_points_earned_monotonic(a1: u64, e1: u64, a2: u64, e2: u64)
    requires
        a1 <= a2,
        e1 <= e2,
        micro_points(a2 as int, e2 as int) <= u64::MAX,
    ensures
        micro_points_u64(a1 as int, e1 as int) <= micro_points_u64(a2 as int, e2 as int),
        micro_points_u64(a1 as int, 0) == 0,
{
    lemma_micro_points_monotonic(a1 as int, e1 as int, a2 as int, e2 as int);
    lemma_micro_points_u64_exact(a1 as int, e1 as int);
    lemma_micro_points_u64_exact(a2 as int, e2 as int);
    lemma_micro_points_zero(a1 as int, e1 as int);
}

/// Where the exact formula already fits in 64 bits, the computed value is not
/// truncated: it equals the exact formula.
pub proof fn lemma_micro_points_u64_exact(a: int, e: int)
    requires
        0 <= a,
        0 <= e,
        micro_points(a, e) <= u64::MAX,
    ensures
        micro_points_u64(a, e) == micro_points(a, e),
{
    lemma_micro_points_nonneg(a, e);
    vstd::arithmetic::div_mod::lemma_small_mod(
        micro_points(a, e) as nat,
        (u64::MAX as nat) + 1,
    );
}

} // verus!
