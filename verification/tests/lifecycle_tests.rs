use stake_program::engine::update_points;
use stake_program::errors::StakeError;
use stake_program::lifecycle::claim_points;
use stake_program::lifecycle::create_pda_account;
use stake_program::lifecycle::get_points;
use stake_program::lifecycle::stake;
use stake_program::lifecycle::unstake;
use stake_program::record::Identity;
use stake_program::record::StakeAccount;

fn owner() -> Identity {
    Identity { id: 7 }
}

fn stranger() -> Identity {
    Identity { id: 8 }
}

fn fresh_record(now: u64) -> StakeAccount {
    create_pda_account(owner(), 1, now)
}

#[test]
fn create_zeroes_the_record() {
    let rec = create_pda_account(owner(), 42, 1_000);
    assert_eq!(rec.owner, owner());
    assert_eq!(rec.staked_amount, 0);
    assert_eq!(rec.total_points, 0);
    assert_eq!(rec.last_updated_time, 1_000);
    assert_eq!(rec.bump, 42);
}

#[test]
fn one_unit_staked_for_one_day_projects_one_point() {
    // Deposit one whole unit at creation time, query one day later: the
    // projection reports 1,000,000 micro-points (one whole point) without
    // touching the record.
    let mut rec = fresh_record(0);
    assert_eq!(stake(&mut rec, owner(), 1_000_000_000, 0), Ok(()));
    let before = rec;
    assert_eq!(get_points(&rec, owner(), 86_400), Ok((1_000_000, 1_000_000_000)));
    assert_eq!(rec, before);
}

#[test]
fn stake_settles_before_raising_the_balance() {
    let mut rec = fresh_record(0);
    assert_eq!(stake(&mut rec, owner(), 1_000_000_000, 0), Ok(()));
    // Half a day later a second deposit first credits the points the old
    // balance earned, then raises the stake.
    assert_eq!(stake(&mut rec, owner(), 1_000_000_000, 43_200), Ok(()));
    assert_eq!(rec.staked_amount, 2_000_000_000);
    assert_eq!(rec.total_points, 500_000);
    assert_eq!(rec.last_updated_time, 43_200);
}

#[test]
fn accrual_is_interval_additive() {
    // Deposits at 0 and 43,200, settled at 86,400: the total equals the sum
    // of the points each sub-interval earned at its own balance.
    let mut rec = fresh_record(0);
    assert_eq!(stake(&mut rec, owner(), 1_000_000_000, 0), Ok(()));
    assert_eq!(stake(&mut rec, owner(), 1_000_000_000, 43_200), Ok(()));
    assert_eq!(update_points(&mut rec, 86_400), Ok(()));
    let first = 500_000; // 1 unit over [0, 43200)
    let second = 1_000_000; // 2 units over [43200, 86400)
    assert_eq!(rec.total_points, first + second);
}

#[test]
fn settle_twice_at_the_same_time_changes_nothing() {
    let mut rec = fresh_record(0);
    assert_eq!(stake(&mut rec, owner(), 1_000_000_000, 0), Ok(()));
    assert_eq!(update_points(&mut rec, 86_400), Ok(()));
    let once = rec;
    assert_eq!(update_points(&mut rec, 86_400), Ok(()));
    assert_eq!(rec, once);
    assert_eq!(rec.total_points, 1_000_000);
}

#[test]
fn deposit_withdraw_round_trip_restores_the_record() {
    let mut rec = fresh_record(0);
    assert_eq!(stake(&mut rec, owner(), 3_000, 0), Ok(()));
    assert_eq!(update_points(&mut rec, 500), Ok(()));
    let before = rec;
    assert_eq!(stake(&mut rec, owner(), 1_234, 500), Ok(()));
    assert_eq!(unstake(&mut rec, owner(), 1_234, 500), Ok(()));
    assert_eq!(rec, before);
}

#[test]
fn claim_pays_whole_points_and_resets() {
    let mut rec = fresh_record(0);
    assert_eq!(stake(&mut rec, owner(), 2_000_000_000, 0), Ok(()));
    // Two units for one day accrue 2,500,000 micro-points by a quarter into
    // the second day: 2 * 1.25 days worth.
    assert_eq!(claim_points(&mut rec, owner(), 108_000), Ok(2));
    assert_eq!(rec.total_points, 0);
    assert_eq!(rec.staked_amount, 2_000_000_000);
    assert_eq!(rec.last_updated_time, 108_000);
}

#[test]
fn claim_floors_the_fractional_micro_points() {
    let rec = StakeAccount {
        owner: owner(),
        staked_amount: 0,
        total_points: 1_999_999,
        last_updated_time: 50,
        bump: 0,
    };
    let mut claimed = rec;
    assert_eq!(claim_points(&mut claimed, owner(), 50), Ok(1));
    assert_eq!(claimed.total_points, 0);
}

#[test]
fn withdraw_beyond_the_stake_fails_unchanged() {
    let mut rec = fresh_record(0);
    assert_eq!(stake(&mut rec, owner(), 500, 0), Ok(()));
    let before = rec;
    assert_eq!(unstake(&mut rec, owner(), 501, 0), Err(StakeError::InsufficientStake));
    assert_eq!(rec, before);
}

#[test]
fn zero_deposit_fails_unchanged() {
    let mut rec = fresh_record(0);
    let before = rec;
    assert_eq!(stake(&mut rec, owner(), 0, 10), Err(StakeError::InvalidAmount));
    assert_eq!(rec, before);
}

#[test]
fn zero_withdrawal_fails_unchanged() {
    let mut rec = fresh_record(0);
    assert_eq!(stake(&mut rec, owner(), 500, 0), Ok(()));
    let before = rec;
    assert_eq!(unstake(&mut rec, owner(), 0, 10), Err(StakeError::InvalidAmount));
    assert_eq!(rec, before);
}

#[test]
fn a_stranger_may_not_withdraw() {
    let mut rec = fresh_record(0);
    assert_eq!(stake(&mut rec, owner(), 500, 0), Ok(()));
    let before = rec;
    assert_eq!(unstake(&mut rec, stranger(), 100, 10), Err(StakeError::Unauthorized));
    assert_eq!(rec, before);
}

#[test]
fn a_stranger_may_not_deposit_claim_or_query() {
    let mut rec = fresh_record(0);
    assert_eq!(stake(&mut rec, owner(), 500, 0), Ok(()));
    let before = rec;
    assert_eq!(stake(&mut rec, stranger(), 100, 10), Err(StakeError::Unauthorized));
    assert_eq!(claim_points(&mut rec, stranger(), 10), Err(StakeError::Unauthorized));
    assert_eq!(get_points(&rec, stranger(), 10), Err(StakeError::Unauthorized));
    assert_eq!(rec, before);
}

#[test]
fn time_moving_backward_is_refused() {
    let mut rec = fresh_record(1_000);
    assert_eq!(stake(&mut rec, owner(), 500, 1_000), Ok(()));
    let before = rec;
    assert_eq!(update_points(&mut rec, 999), Err(StakeError::InvalidTimestamp));
    assert_eq!(stake(&mut rec, owner(), 1, 999), Err(StakeError::InvalidTimestamp));
    assert_eq!(unstake(&mut rec, owner(), 1, 999), Err(StakeError::InvalidTimestamp));
    assert_eq!(claim_points(&mut rec, owner(), 999), Err(StakeError::InvalidTimestamp));
    assert_eq!(get_points(&rec, owner(), 999), Err(StakeError::InvalidTimestamp));
    assert_eq!(rec, before);
}

#[test]
fn point_balance_overflow_is_refused_unchanged() {
    let rec = StakeAccount {
        owner: owner(),
        staked_amount: 1_000_000_000,
        total_points: u64::MAX,
        last_updated_time: 0,
        bump: 0,
    };
    let mut after = rec;
    // One more day would credit 1,000,000 micro-points on top of a full
    // balance.
    assert_eq!(update_points(&mut after, 86_400), Err(StakeError::ArithmeticOverflow));
    assert_eq!(after, rec);
    assert_eq!(get_points(&rec, owner(), 86_400), Err(StakeError::ArithmeticOverflow));
}

#[test]
fn stake_balance_overflow_is_refused_unchanged() {
    let mut rec = fresh_record(0);
    assert_eq!(stake(&mut rec, owner(), u64::MAX, 0), Ok(()));
    let before = rec;
    assert_eq!(stake(&mut rec, owner(), 1, 0), Err(StakeError::ArithmeticOverflow));
    assert_eq!(rec, before);
}

#[test]
fn settlement_advances_the_clock_even_with_nothing_staked() {
    // An empty record settled much later credits nothing but moves the
    // clock, so a later deposit is not credited for the idle period.
    let mut rec = fresh_record(0);
    assert_eq!(update_points(&mut rec, 1_000_000), Ok(()));
    assert_eq!(rec.total_points, 0);
    assert_eq!(rec.last_updated_time, 1_000_000);
    assert_eq!(stake(&mut rec, owner(), 1_000_000_000, 1_000_000), Ok(()));
    assert_eq!(get_points(&rec, owner(), 1_000_000 + 86_400), Ok((1_000_000, 1_000_000_000)));
}
