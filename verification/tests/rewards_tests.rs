use stake_program::errors::StakeError;
use stake_program::rewards::calculate_points_earned;

#[test]
fn one_unit_for_one_day() {
    // One whole staking unit held for one day earns one whole point,
    // i.e. 1,000,000 micro-points.
    assert_eq!(calculate_points_earned(1_000_000_000, 86_400), Ok(1_000_000));
}

#[test]
fn two_units_for_half_a_day() {
    assert_eq!(calculate_points_earned(2_000_000_000, 43_200), Ok(1_000_000));
}

#[test]
fn zero_elapsed_earns_nothing() {
    assert_eq!(calculate_points_earned(1_000_000_000, 0), Ok(0));
    assert_eq!(calculate_points_earned(u64::MAX, 0), Ok(0));
}

#[test]
fn zero_stake_earns_nothing() {
    assert_eq!(calculate_points_earned(0, 86_400), Ok(0));
    assert_eq!(calculate_points_earned(0, u64::MAX), Ok(0));
}

#[test]
fn fractional_result_is_floored() {
    // One second short of a day: 86,399 * 1,000,000 / 86,400 floors to 999,988.
    assert_eq!(calculate_points_earned(1_000_000_000, 86_399), Ok(999_988));
    // A tiny stake over a short time floors all the way to zero.
    assert_eq!(calculate_points_earned(1, 86_399), Ok(0));
}

#[test]
fn monotone_in_stake_and_time() {
    let samples: [(u64, u64); 4] =
        [(1, 1), (999_999_999, 86_399), (1_000_000_000, 86_400), (5_000_000_000, 1_000_000)];
    for (a, e) in samples {
        let base = calculate_points_earned(a, e).unwrap();
        assert!(calculate_points_earned(a + 1, e).unwrap() >= base);
        assert!(calculate_points_earned(a, e + 1).unwrap() >= base);
        assert!(calculate_points_earned(a * 2, e).unwrap() >= base);
        assert!(calculate_points_earned(a, e * 2).unwrap() >= base);
    }
}

#[test]
fn overflow_of_the_wide_product_is_reported() {
    // u64::MAX * u64::MAX fits in 128 bits, but the further factor of
    // 1,000,000 does not.
    assert_eq!(
        calculate_points_earned(u64::MAX, u64::MAX),
        Err(StakeError::ArithmeticOverflow)
    );
}
