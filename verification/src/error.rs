//! The ways in which an operation on a stake record can fail.

use vstd::prelude::*;

verus! {

/// Why an operation was refused. Every failure leaves the record as it was.
#[derive(Clone, Copy, Debug, PartialEq, Eq)]
pub enum StakeError {
    /// A deposit or withdrawal of zero was asked for.
    InvalidAmount,
    /// A withdrawal asked for more than is staked.
    InsufficientStake,
    /// The caller is not the owner of the record.
    Unauthorized,
    /// A sum or product does not fit the integer that must hold it.
    Overflow,
    /// A difference would fall below zero.
    Underflow,
    /// The time handed in lies before the record's last update.
    InvalidTimestamp,
}

} // verus!
