//! A verified staking ledger.
//!
//! Each participant owns one [`record::StakeAccount`], which tracks a staked
//! balance, accrued reward points (in micro-points, 1/1,000,000 of a whole
//! point), and the time of the last point settlement. Points accrue in
//! proportion to the staked amount and the time it has been staked; every
//! balance-changing or querying operation first settles pending points up to
//! the current time, so the balance in effect over an interval is the one that
//! earns that interval's points.
//!
//! The crate verifies the arithmetic (overflow-checked, with the exact
//! fixed-point formula stated as a spec function), the authorization and
//! validity checks of each operation, and the accounting laws: accrual is
//! monotone and interval-additive, settlement is idempotent at a fixed time,
//! and a deposit followed by an immediate withdrawal restores the record.
//!
//! Fund custody, identity verification, durable record storage and the clock
//! are external collaborators: the host performs them and hands this library
//! plain values.

pub mod engine;
pub mod errors;
pub mod laws;
pub mod lifecycle;
pub mod record;
pub mod rewards;
