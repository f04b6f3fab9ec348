use vstd::prelude::*;

use crate::errors::StakeError;
use crate::record::StakeAccount;
use crate::rewards::calculate_points_earned;
use crate::rewards::micro_points_u64;
use crate::rewards::points_fit_wide;

verus! {

/// Micro-points a settlement at `now` credits to `r`: the reward formula over
/// the elapsed interval, or zero when no time has passed or nothing is staked.
pub open spec fn settle_delta(r: StakeAccount, now: u64) -> u64 {
    if r.last_updated_time < now && r.staked_amount > 0 {
        micro_points_u64(r.staked_amount as int, now - r.last_updated_time)
    } else {
        0u64
    }
}

/// When settlement at `now` succeeds: time has not moved backward, and where
/// points must actually be computed and credited, the computation fits its
/// working type and the credit fits the point balance.
pub open spec fn settle_ok(r: StakeAccount, now: u64) -> bool {
    &&& r.last_updated_time <= now
    &&& (r.last_updated_time < now && r.staked_amount > 0 ==> {
        &&& points_fit_wide(r.staked_amount as int, now - r.last_updated_time)
        &&& r.total_points + settle_delta(r, now) <= u64::MAX
    })
}

/// The record after a successful settlement at `now`: the pending points
/// credited and the settlement time advanced; owner, stake and bump untouched.
pub open spec fn settled(r: StakeAccount, now: u64) -> StakeAccount {
    StakeAccount {
        total_points: (r.total_points + settle_delta(r, now)) as u64,
        last_updated_time: now,
        ..r
    }
}

/// The error a failed settlement reports: time moving backward wins, any
/// other failure is an overflow of the point arithmetic.
pub open spec fn settle_error(r: StakeAccount, now: u64) -> StakeError {
    if now < r.last_updated_time {
        StakeError::InvalidTimestamp
    } else {
        StakeError::ArithmeticOverflow
    }
}

/// Settles pending points into the record up to `current_time`: credits the
/// points earned since the last settlement and advances the settlement time,
/// even when nothing accrued, so an unstaked period is never credited later.
/// On failure the record is left untouched.
pub fn update_points(pda_account: &mut StakeAccount, current_time: u64) -> (r: Result<
    (),
    StakeError,
>)
    ensures
        r is Ok <==> settle_ok(*old(pda_account), current_time),
        r is Ok ==> *final(pda_account) == settled(*old(pda_account), current_time),
        r is Err ==> *final(pda_account) == *old(pda_account),
        r matches Err(e) ==> e == settle_error(*old(pda_account), current_time),
{
    if current_time < pda_account.last_updated_time {
        return Err(StakeError::InvalidTimestamp);
    }
    let time_elapsed = current_time - pda_account.last_updated_time;
    if time_elapsed > 0 && pda_account.staked_amount > 0 {
        let new_points = match calculate_points_earned(pda_account.staked_amount, time_elapsed) {
            Ok(p) => p,
            Err(e) => {
                return Err(e);
            },
        };
        pda_account.total_points = match pda_account.total_points.checked_add(new_points) {
            Some(t) => t,
            None => {
                return Err(StakeError::ArithmeticOverflow);
            },
        };
    }
    pda_account.last_updated_time = current_time;
    proof {
        assert(*pda_account =~= settled(*old(pda_account), current_time));
    }
    Ok(())
}

/// Settlement is idempotent at a fixed time: a settlement leaves no pending
/// points behind at its own instant, so settling again at the same `now`
/// succeeds and changes nothing.
pub proof fn lemma_settle_idempotent(r: StakeAccount, now: u64)
    requires
        settle_ok(r, now),
    ensures
        settle_ok(settled(r, now), now),
        settled(settled(r, now), now) == settled(r, now),
{
    assert(settled(settled(r, now), now) =~= settled(r, now));
}

} // verus!
