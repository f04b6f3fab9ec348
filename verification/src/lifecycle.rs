use vstd::prelude::*;

use crate::engine::settle_error;
use crate::engine::settle_ok;
use crate::engine::settled;
use crate::engine::update_points;
use crate::errors::StakeError;
use crate::record::Identity;
use crate::record::StakeAccount;
use crate::rewards::MICRO_POINTS_PER_POINT;

verus! {

/// Builds a fresh record for `owner`: nothing staked, no points, the
/// settlement clock started at `now`. `bump` is the host's bookkeeping byte.
/// The host's record store is responsible for refusing a second record for
/// the same owner.
pub fn create_pda_account(owner: Identity, bump: u8, now: u64) -> (r: StakeAccount)
    ensures
        r.owner == owner,
        r.staked_amount == 0,
        r.total_points == 0,
        r.last_updated_time == now,
        r.bump == bump,
{
    StakeAccount { owner, staked_amount: 0, total_points: 0, last_updated_time: now, bump }
}

/// When a deposit of `amount` at `now` by `caller` succeeds: the caller owns
/// the record, the amount is positive, settlement succeeds, and the raised
/// stake still fits its type.
pub open spec fn stake_allowed(r: StakeAccount, caller: Identity, amount: u64, now: u64) -> bool {
    &&& caller == r.owner
    &&& amount > 0
    &&& settle_ok(r, now)
    &&& r.staked_amount + amount <= u64::MAX
}

/// The record after a successful deposit: settled at `now`, stake raised by
/// `amount`.
pub open spec fn staked(r: StakeAccount, amount: u64, now: u64) -> StakeAccount {
    StakeAccount { staked_amount: (r.staked_amount + amount) as u64, ..settled(r, now) }
}

/// The error a failed deposit reports, checked in this order: authorization,
/// amount validity, settlement, then the stake addition.
pub open spec fn stake_failure(r: StakeAccount, caller: Identity, amount: u64, now: u64)
    -> StakeError {
    if caller != r.owner {
        StakeError::Unauthorized
    } else if amount == 0 {
        StakeError::InvalidAmount
    } else if !settle_ok(r, now) {
        settle_error(r, now)
    } else {
        StakeError::ArithmeticOverflow
    }
}

/// Deposits `amount` into the record at time `now`, on behalf of `caller`.
///
/// Settles pending points first, so the stake in effect before the deposit is
/// the one that earned them. On failure the record is left untouched. The
/// host moves the actual funds after this succeeds and reverts the record if
/// that external transfer fails.
pub fn stake(
    pda_account: &mut StakeAccount,
    caller: Identity,
    amount: u64,
    now: u64,
) -> (r: Result<(), StakeError>)
    ensures
        r is Ok <==> stake_allowed(*old(pda_account), caller, amount, now),
        r is Ok ==> *final(pda_account) == staked(*old(pda_account), amount, now),
        r is Err ==> *final(pda_account) == *old(pda_account),
        r matches Err(e) ==> e == stake_failure(*old(pda_account), caller, amount, now),
{
    if caller != pda_account.owner {
        return Err(StakeError::Unauthorized);
    }
    if amount == 0 {
        return Err(StakeError::InvalidAmount);
    }
    let mut updated = *pda_account;
    match update_points(&mut updated, now) {
        Ok(()) => {},
        Err(e) => {
            return Err(e);
        },
    }
    updated.staked_amount = match updated.staked_amount.checked_add(amount) {
        Some(s) => s,
        None => {
            return Err(StakeError::ArithmeticOverflow);
        },
    };
    *pda_account = updated;
    proof {
        assert(*pda_account =~= staked(*old(pda_account), amount, now));
    }
    Ok(())
}

/// When a withdrawal of `amount` at `now` by `caller` succeeds: the caller
/// owns the record, the amount is positive and covered by the staked balance,
/// and settlement succeeds.
pub open spec fn unstake_allowed(r: StakeAccount, caller: Identity, amount: u64, now: u64)
    -> bool {
    &&& caller == r.owner
    &&& amount > 0
    &&& amount <= r.staked_amount
    &&& settle_ok(r, now)
}

/// The record after a successful withdrawal: settled at `now`, stake lowered
/// by `amount`.
pub open spec fn unstaked(r: StakeAccount, amount: u64, now: u64) -> StakeAccount {
    StakeAccount { staked_amount: (r.staked_amount - amount) as u64, ..settled(r, now) }
}

/// The error a failed withdrawal reports, checked in this order:
/// authorization, amount validity, stake coverage, then settlement.
pub open spec fn unstake_failure(r: StakeAccount, caller: Identity, amount: u64, now: u64)
    -> StakeError {
    if caller != r.owner {
        StakeError::Unauthorized
    } else if amount == 0 {
        StakeError::InvalidAmount
    } else if amount > r.staked_amount {
        StakeError::InsufficientStake
    } else {
        settle_error(r, now)
    }
}

/// Withdraws `amount` from the record at time `now`, on behalf of `caller`.
///
/// Settles pending points first, so the stake in effect through the elapsed
/// interval, including the withdrawn part, earns its points. On failure the
/// record is left untouched. The host moves the actual funds back to the
/// participant, under the record's own credentials, once this succeeds.
pub fn unstake(
    pda_account: &mut StakeAccount,
    caller: Identity,
    amount: u64,
    now: u64,
) -> (r: Result<(), StakeError>)
    ensures
        r is Ok <==> unstake_allowed(*old(pda_account), caller, amount, now),
        r is Ok ==> *final(pda_account) == unstaked(*old(pda_account), amount, now),
        r is Err ==> *final(pda_account) == *old(pda_account),
        r matches Err(e) ==> e == unstake_failure(*old(pda_account), caller, amount, now),
{
    if caller != pda_account.owner {
        return Err(StakeError::Unauthorized);
    }
    if amount == 0 {
        return Err(StakeError::InvalidAmount);
    }
    if amount > pda_account.staked_amount {
        return Err(StakeError::InsufficientStake);
    }
    let mut updated = *pda_account;
    match update_points(&mut updated, now) {
        Ok(()) => {},
        Err(e) => {
            return Err(e);
        },
    }
    updated.staked_amount = match updated.staked_amount.checked_sub(amount) {
        Some(s) => s,
        None => {
            return Err(StakeError::ArithmeticUnderflow);
        },
    };
    *pda_account = updated;
    proof {
        assert(*pda_account =~= unstaked(*old(pda_account), amount, now));
    }
    Ok(())
}

/// When a claim at `now` by `caller` succeeds: the caller owns the record and
/// settlement succeeds.
pub open spec fn claim_allowed(r: StakeAccount, caller: Identity, now: u64) -> bool {
    &&& caller == r.owner
    &&& settle_ok(r, now)
}

/// The whole points a claim at `now` pays out: the settled micro-point
/// balance, floored to whole points; the fraction below the scale is
/// forfeited.
pub open spec fn claimable_points(r: StakeAccount, now: u64) -> u64 {
    (settled(r, now).total_points / MICRO_POINTS_PER_POINT) as u64
}

/// The record after a successful claim: settled at `now`, then the point
/// balance reset to zero.
pub open spec fn claimed(r: StakeAccount, now: u64) -> StakeAccount {
    StakeAccount { total_points: 0, ..settled(r, now) }
}

/// The error a failed claim reports: authorization first, then settlement.
pub open spec fn claim_failure(r: StakeAccount, caller: Identity, now: u64) -> StakeError {
    if caller != r.owner {
        StakeError::Unauthorized
    } else {
        settle_error(r, now)
    }
}

/// Claims the accrued points: settles up to `now`, pays out the settled
/// balance in whole points, and resets the micro-point balance to zero. Does
/// not move funds. On failure the record is left untouched.
pub fn claim_points(pda_account: &mut StakeAccount, caller: Identity, now: u64) -> (r: Result<
    u64,
    StakeError,
>)
    ensures
        r is Ok <==> claim_allowed(*old(pda_account), caller, now),
        r matches Ok(p) ==> p == claimable_points(*old(pda_account), now),
        r is Ok ==> *final(pda_account) == claimed(*old(pda_account), now),
        r is Err ==> *final(pda_account) == *old(pda_account),
        r matches Err(e) ==> e == claim_failure(*old(pda_account), caller, now),
{
    if caller != pda_account.owner {
        return Err(StakeError::Unauthorized);
    }
    match update_points(pda_account, now) {
        Ok(()) => {},
        Err(e) => {
            return Err(e);
        },
    }
    let claimable = pda_account.total_points / MICRO_POINTS_PER_POINT;
    pda_account.total_points = 0;
    proof {
        assert(*pda_account =~= claimed(*old(pda_account), now));
    }
    Ok(claimable)
}

/// When a query at `now` by `caller` succeeds: the caller owns the record and
/// a settlement at `now` would succeed; the projection obeys the same timing
/// and overflow rules as a real settlement.
pub open spec fn query_allowed(r: StakeAccount, caller: Identity, now: u64) -> bool {
    &&& caller == r.owner
    &&& settle_ok(r, now)
}

/// Reports what the point balance would become if settled at `now`, together
/// with the staked amount, without writing anything: a pure projection. The
/// error of a failed query is the same as a failed claim's.
pub fn get_points(pda_account: &StakeAccount, caller: Identity, now: u64) -> (r: Result<
    (u64, u64),
    StakeError,
>)
    ensures
        r is Ok <==> query_allowed(*pda_account, caller, now),
        r matches Ok(p) ==> p == (
            settled(*pda_account, now).total_points,
            pda_account.staked_amount,
        ),
        r matches Err(e) ==> e == claim_failure(*pda_account, caller, now),
{
    if caller != pda_account.owner {
        return Err(StakeError::Unauthorized);
    }
    if now < pda_account.last_updated_time {
        return Err(StakeError::InvalidTimestamp);
    }
    let time_elapsed = now - pda_account.last_updated_time;
    proof {
        crate::rewards::lemma_micro_points_zero(
            pda_account.staked_amount as int,
            time_elapsed as int,
        );
    }
    let new_points = match crate::rewards::calculate_points_earned(
        pda_account.staked_amount,
        time_elapsed,
    ) {
        Ok(p) => p,
        Err(e) => {
            return Err(e);
        },
    };
    let projected = match pda_account.total_points.checked_add(new_points) {
        Some(t) => t,
        None => {
            return Err(StakeError::ArithmeticOverflow);
        },
    };
    Ok((projected, pda_account.staked_amount))
}

} // verus!
