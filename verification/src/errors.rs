use vstd::prelude::*;

verus! {

/// Everything that can go wrong in the staking ledger.
///
/// Each failed operation surfaces exactly one of these and leaves the record
/// in its pre-operation state. `AlreadyExists` and `TransferFailed` arise at
/// the host boundary (the durable record store and the external custody
/// transfer); the in-library operations never return them.
#[derive(Clone, Copy, Debug, PartialEq, Eq, Structural)]
pub enum StakeError {
    /// A zero amount was supplied to a deposit or withdrawal.
    InvalidAmount,
    /// A withdrawal asked for more than the staked balance.
    InsufficientStake,
    /// The caller's identity does not match the record's owner.
    Unauthorized,
    /// A checked multiplication or addition would exceed its type's range.
    ArithmeticOverflow,
    /// A checked subtraction would go below zero.
    ArithmeticUnderflow,
    /// Time moved backward: the supplied time precedes the last settlement.
    InvalidTimestamp,
    /// A record for this owner already exists; re-initialization is refused.
    AlreadyExists,
    /// The external custody transfer reported failure.
    TransferFailed,
}

} // verus!
