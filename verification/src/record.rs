use vstd::prelude::*;

verus! {

/// A participant identity, as the host's identity verifier reports it.
///
/// The library only ever compares identities for equality; the host maps
/// whatever key material it uses onto this value.
#[derive(Clone, Copy, Debug, PartialEq, Eq, Structural)]
pub struct Identity {
    pub id: u64,
}

/// One participant's stake record.
///
/// - `owner` is bound at creation and never changes afterwards.
/// - `staked_amount` only changes by deposits (+) and withdrawals (-) and
///   never goes below zero.
/// - `total_points` holds accrued reward points in micro-points; it only
///   grows by settlement, except for the explicit reset a claim performs.
/// - `last_updated_time` is the time (seconds) of the last settlement and
///   never regresses.
/// - `bump` is an opaque byte of host bookkeeping, carried but never read.
#[derive(Clone, Copy, Debug, PartialEq, Eq, Structural)]
#[verifier::ext_equal]
pub struct StakeAccount {
    pub owner: Identity,
    pub staked_amount: u64,
    pub total_points: u64,
    pub last_updated_time: u64,
    pub bump: u8,
}

} // verus!
