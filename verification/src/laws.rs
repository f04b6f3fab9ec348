use vstd::prelude::*;

use crate::engine::settle_delta;
use crate::engine::settle_ok;
use crate::engine::settled;
use crate::record::Identity;
use crate::record::StakeAccount;
use crate::lifecycle::stake_allowed;
use crate::lifecycle::staked;
use crate::lifecycle::unstake_allowed;
use crate::lifecycle::unstaked;

verus! {

/// A deposit history: each entry is the time a deposit settles at and the
/// amount it adds, oldest first.
pub open spec fn deposits_ok(r: StakeAccount, steps: Seq<(u64, u64)>) -> bool
    decreases steps.len(),
{
    steps.len() == 0 || {
        &&& stake_allowed(r, r.owner, steps[0].1, steps[0].0)
        &&& deposits_ok(staked(r, steps[0].1, steps[0].0), steps.skip(1))
    }
}

/// The record after the whole deposit history has been applied.
pub open spec fn after_deposits(r: StakeAccount, steps: Seq<(u64, u64)>) -> StakeAccount
    decreases steps.len(),
{
    if steps.len() == 0 {
        r
    } else {
        after_deposits(staked(r, steps[0].1, steps[0].0), steps.skip(1))
    }
}

/// The points earned over each sub-interval between consecutive settlements,
/// at the stake in effect during that sub-interval, summed up to a final
/// settlement at `t`.
pub open spec fn accrued_points(r: StakeAccount, steps: Seq<(u64, u64)>, t: u64) -> int
    decreases steps.len(),
{
    if steps.len() == 0 {
        settle_delta(r, t) as int
    } else {
        settle_delta(r, steps[0].0) + accrued_points(
            staked(r, steps[0].1, steps[0].0),
            steps.skip(1),
            t,
        )
    }
}

/// Conservation: accrual is interval-additive. For a record that only ever
/// deposits (no withdrawals, no claims), the point balance after a final
/// settlement at `t` is the starting balance plus the sum, over the disjoint
/// sub-intervals between consecutive settlements, of the points earned at the
/// stake in effect during each sub-interval.
pub proof fn lemma_accrual_interval_additive(r: StakeAccount, steps: Seq<(u64, u64)>, t: u64)
    requires
        deposits_ok(r, steps),
        settle_ok(after_deposits(r, steps), t),
    ensures
        settled(after_deposits(r, steps), t).total_points == r.total_points + accrued_points(
            r,
            steps,
            t,
        ),
    decreases steps.len(),
{
    if steps.len() > 0 {
        lemma_accrual_interval_additive(staked(r, steps[0].1, steps[0].0), steps.skip(1), t);
    }
}

/// Depositing and then immediately withdrawing the same amount restores the
/// record to its once-settled state: the stake returns to its prior value and
/// the point balance is exactly what the deposit's settlement credited.
pub proof fn lemma_stake_unstake_restores(r: StakeAccount, caller: Identity, amount: u64, now: u64)
    requires
        stake_allowed(r, caller, amount, now),
    ensures
        unstake_allowed(staked(r, amount, now), caller, amount, now),
        unstaked(staked(r, amount, now), amount, now) == settled(r, now),
{
    crate::engine::lemma_settle_idempotent(r, now);
    assert(unstaked(staked(r, amount, now), amount, now) =~= settled(r, now));
}

/// With no time elapsed since the last settlement, a deposit followed by an
/// immediate withdrawal of the same amount is a perfect round trip: the
/// record, its stake and its point balance are exactly what they were.
pub proof fn lemma_stake_unstake_round_trip(
    r: StakeAccount,
    caller: Identity,
    amount: u64,
    now: u64,
)
    requires
        caller == r.owner,
        0 < amount,
        r.staked_amount + amount <= u64::MAX,
        r.last_updated_time == now,
    ensures
        stake_allowed(r, caller, amount, now),
        unstake_allowed(staked(r, amount, now), caller, amount, now),
        unstaked(staked(r, amount, now), amount, now) == r,
{
    lemma_stake_unstake_restores(r, caller, amount, now);
    assert(settled(r, now) =~= r);
}

} // verus!
