//! Runs of deposits and withdrawals on one record, and what they add up to.
//!
//! The record is what passes from one movement to the next. The lamports are
//! not: each movement meets them as they are when it is made, so each carries
//! the two balances that it sees.

use vstd::prelude::*;
use crate::account::StakeAccount;
use crate::context::StakeOperationMut;
use crate::error::StakeError;

verus! {

/// Whether lamports come in or go out.
pub enum Direction {
    /// Lamports are staked.
    Deposit,
    /// Lamports are taken back.
    Withdrawal,
}

/// One deposit or one withdrawal.
pub struct Movement {
    /// Which of the two it is.
    pub direction: Direction,
    /// The lamports to move.
    pub amount: u64,
    /// The time at which it is made.
    pub time: i64,
    /// The lamports that the signer holds at that time.
    pub user_lamports: u64,
    /// The lamports that back the record at that time.
    pub pda_lamports: u64,
}

impl StakeAccount {
    /// The record after one movement made by its owner.
    pub open spec fn after_movement(self, movement: Movement) -> Result<StakeAccount, StakeError> {
        let ctx = StakeOperationMut {
            user: self.owner,
            user_lamports: movement.user_lamports,
            pda_account: self,
            pda_lamports: movement.pda_lamports,
        };
        let outcome = match movement.direction {
            Direction::Deposit => ctx.after_stake(movement.amount, movement.time),
            Direction::Withdrawal => ctx.after_unstake(movement.amount, movement.time),
        };
        match outcome {
            Ok(next) => Ok(next.pda_account),
            Err(e) => Err(e),
        }
    }

    /// The record after a run of movements, made one after the other, or the
    /// error of the first that fails.
    pub open spec fn after_movements(self, movements: Seq<Movement>) -> Result<
        StakeAccount,
        StakeError,
    >
        decreases movements.len(),
    {
        if movements.len() == 0 {
            Ok(self)
        } else {
            match self.after_movements(movements.drop_last()) {
                Ok(before_last) => before_last.after_movement(movements.last()),
                Err(e) => Err(e),
            }
        }
    }
}

/// The sum of the deposits in a run of movements.
pub open spec fn total_deposited(movements: Seq<Movement>) -> int
    decreases movements.len(),
{
    if movements.len() == 0 {
        0
    } else {
        total_deposited(movements.drop_last()) + match movements.last().direction {
            Direction::Deposit => movements.last().amount as int,
            Direction::Withdrawal => 0,
        }
    }
}

/// The sum of the withdrawals in a run of movements.
pub open spec fn total_withdrawn(movements: Seq<Movement>) -> int
    decreases movements.len(),
{
    if movements.len() == 0 {
        0
    } else {
        total_withdrawn(movements.drop_last()) + match movements.last().direction {
            Direction::Deposit => 0,
            Direction::Withdrawal => movements.last().amount as int,
        }
    }
}

/// After a run of movements that all succeed, the staked amount is what it
/// was before, plus the deposits, less the withdrawals. On a new record, where
/// nothing is staked, it is the deposits less the withdrawals.
pub proof fn theorem_staked_amount_is_net_of_movements(
    account: StakeAccount,
    movements: Seq<Movement>,
)
    ensures
        account.after_movements(movements) matches Ok(end) ==> end.staked_amount
            == account.staked_amount + total_deposited(movements) - total_withdrawn(movements),
        account.after_movements(movements) matches Ok(end) ==> (account.staked_amount == 0
            ==> end.staked_amount == total_deposited(movements) - total_withdrawn(movements)),
    decreases movements.len(),
{
    if movements.len() > 0 {
        theorem_staked_amount_is_net_of_movements(account, movements.drop_last());
    }
}

/// Where a run of movements succeeds, so does every run that it begins with,
/// and at no point along the way have the withdrawals taken more than was
/// there: the staked amount is never below zero.
pub proof fn theorem_staked_amount_never_negative(
    account: StakeAccount,
    movements: Seq<Movement>,
    count: int,
)
    requires
        account.after_movements(movements) is Ok,
        0 <= count <= movements.len(),
    ensures
        account.after_movements(movements.subrange(0, count)) is Ok,
        account.staked_amount + total_deposited(movements.subrange(0, count)) - total_withdrawn(
            movements.subrange(0, count),
        ) >= 0,
    decreases movements.len(),
{
    if count == movements.len() {
        assert(movements.subrange(0, count) =~= movements);
    } else {
        assert(movements.drop_last().subrange(0, count) =~= movements.subrange(0, count));
        theorem_staked_amount_never_negative(account, movements.drop_last(), count);
    }
    theorem_staked_amount_is_net_of_movements(account, movements.subrange(0, count));
}

} // verus!
