//! The five instructions: create a record, deposit, withdraw, claim, and ask
//! for the points.
//!
//! Each takes the time as an argument, and all but the first begin by settling
//! the record up to it. An instruction that fails leaves everything it was
//! given as it was.

use vstd::prelude::*;
use crate::account::{update_points, StakeAccount};
use crate::context::{CreatePda, StakeOperation, StakeOperationMut};
use crate::error::StakeError;
use crate::points::{claimable_points, MICRO_POINTS_PER_POINT};

verus! {

impl StakeOperationMut {
    /// The accounts after a deposit of `amount` at `current_time`.
    ///
    /// A zero amount is an `InvalidAmount`. Then the record is settled. Then
    /// the amount is added to the staked amount, which is an `Overflow` where
    /// the sum does not fit in 64 bits.
    pub open spec fn after_stake(self, amount: u64, current_time: i64) -> Result<
        StakeOperationMut,
        StakeError,
    > {
        if amount == 0 {
            Err(StakeError::InvalidAmount)
        } else {
            match self.pda_account.settled(current_time) {
                Err(e) => Err(e),
                Ok(settled) => if settled.staked_amount + amount > u64::MAX {
                    Err(StakeError::Overflow)
                } else {
                    Ok(
                        StakeOperationMut {
                            pda_account: StakeAccount {
                                staked_amount: (settled.staked_amount + amount) as u64,
                                ..settled
                            },
                            ..self
                        },
                    )
                },
            }
        }
    }

    /// The accounts after a withdrawal of `amount` at `current_time`.
    ///
    /// A zero amount is an `InvalidAmount`. Then the record is settled. More
    /// than is staked is an `InsufficientStake`. The amount leaves the
    /// record's lamports, an `Underflow` where they do not cover it, and joins
    /// the signer's, an `Overflow` where the sum does not fit in 64 bits. Last,
    /// the staked amount goes down by the amount.
    pub open spec fn after_unstake(self, amount: u64, current_time: i64) -> Result<
        StakeOperationMut,
        StakeError,
    > {
        if amount == 0 {
            Err(StakeError::InvalidAmount)
        } else {
            match self.pda_account.settled(current_time) {
                Err(e) => Err(e),
                Ok(settled) => if amount > settled.staked_amount {
                    Err(StakeError::InsufficientStake)
                } else if self.pda_lamports < amount {
                    Err(StakeError::Underflow)
                } else if self.user_lamports + amount > u64::MAX {
                    Err(StakeError::Overflow)
                } else {
                    Ok(
                        StakeOperationMut {
                            user: self.user,
                            user_lamports: (self.user_lamports + amount) as u64,
                            pda_account: StakeAccount {
                                staked_amount: (settled.staked_amount - amount) as u64,
                                ..settled
                            },
                            pda_lamports: (self.pda_lamports - amount) as u64,
                        },
                    )
                },
            }
        }
    }

    /// The accounts after a claim at `current_time`, and the whole points
    /// claimed.
    ///
    /// The record is settled. The whole points in its total are reported, and
    /// the total starts again at zero.
    pub open spec fn after_claim(self, current_time: i64) -> Result<
        (StakeOperationMut, u64),
        StakeError,
    > {
        match self.pda_account.settled(current_time) {
            Err(e) => Err(e),
            Ok(settled) => Ok(
                (
                    StakeOperationMut {
                        pda_account: StakeAccount { total_points: 0, ..settled },
                        ..self
                    },
                    settled.total_points / MICRO_POINTS_PER_POINT,
                ),
            ),
        }
    }
}

impl StakeOperation {
    /// The micro-points that the record holds once settled at `current_time`.
    pub open spec fn points_at(self, current_time: i64) -> Result<u64, StakeError> {
        match self.pda_account.settled(current_time) {
            Err(e) => Err(e),
            Ok(settled) => Ok(settled.total_points),
        }
    }
}

/// Fills in a new record: owned by the payer, nothing staked, no points, last
/// updated at `current_time`, with `bump` as its address tag.
pub fn create_pda(ctx: &mut CreatePda, bump: u8, current_time: i64)
    ensures
        final(ctx).payer == old(ctx).payer,
        final(ctx).pda_account == (StakeAccount {
            owner: old(ctx).payer,
            staked_amount: 0,
            total_points: 0,
            last_updated_time: current_time,
            bump,
        }),
{
    ctx.pda_account.bump = bump;
    ctx.pda_account.owner = ctx.payer;
    ctx.pda_account.last_updated_time = current_time;
    ctx.pda_account.staked_amount = 0;
    ctx.pda_account.total_points = 0;
}

/// Deposits `amount` lamports at `current_time`.
///
/// The record is settled first, so the points earned so far are counted on the
/// amount that was staked until now. The lamports themselves are not moved
/// here: the caller has them transferred from the signer to the record, and
/// stores the record only once that transfer has succeeded.
pub fn stake(ctx: &mut StakeOperationMut, amount: u64, current_time: i64) -> (result: Result<
    (),
    StakeError,
>)
    ensures
        match old(ctx).after_stake(amount, current_time) {
            Ok(next) => result is Ok && *final(ctx) == next,
            Err(e) => result == Err::<(), StakeError>(e) && *final(ctx) == *old(ctx),
        },
{
    if amount == 0 {
        return Err(StakeError::InvalidAmount);
    }
    let mut account = ctx.pda_account;
    match update_points(&mut account, current_time) {
        Ok(()) => {},
        Err(e) => {
            return Err(e);
        },
    }
    account.staked_amount = match account.staked_amount.checked_add(amount) {
        Some(sum) => sum,
        None => {
            return Err(StakeError::Overflow);
        },
    };
    account.last_updated_time = current_time;
    ctx.pda_account = account;
    Ok(())
}

/// Withdraws `amount` lamports at `current_time`: the record is settled, the
/// lamports pass from the record to the signer, and the staked amount goes
/// down.
pub fn unstake(ctx: &mut StakeOperationMut, amount: u64, current_time: i64) -> (result: Result<
    (),
    StakeError,
>)
    ensures
        match old(ctx).after_unstake(amount, current_time) {
            Ok(next) => result is Ok && *final(ctx) == next,
            Err(e) => result == Err::<(), StakeError>(e) && *final(ctx) == *old(ctx),
        },
{
    if amount == 0 {
        return Err(StakeError::InvalidAmount);
    }
    let mut account = ctx.pda_account;
    match update_points(&mut account, current_time) {
        Ok(()) => {},
        Err(e) => {
            return Err(e);
        },
    }
    if amount > account.staked_amount {
        return Err(StakeError::InsufficientStake);
    }
    let pda_lamports = match ctx.pda_lamports.checked_sub(amount) {
        Some(rest) => rest,
        None => {
            return Err(StakeError::Underflow);
        },
    };
    let user_lamports = match ctx.user_lamports.checked_add(amount) {
        Some(sum) => sum,
        None => {
            return Err(StakeError::Overflow);
        },
    };
    account.staked_amount = match account.staked_amount.checked_sub(amount) {
        Some(rest) => rest,
        None => {
            return Err(StakeError::Underflow);
        },
    };
    account.last_updated_time = current_time;
    ctx.pda_lamports = pda_lamports;
    ctx.user_lamports = user_lamports;
    ctx.pda_account = account;
    Ok(())
}

/// Claims the points of the record at `current_time`.
///
/// Returns the whole points claimed. The record's total starts again at zero,
/// so what is returned here is reported once and never again: whoever issues
/// the reward has to act on this value.
pub fn claim_points(ctx: &mut StakeOperationMut, current_time: i64) -> (result: Result<
    u64,
    StakeError,
>)
    ensures
        match old(ctx).after_claim(current_time) {
            Ok((next, claimed)) => result == Ok::<u64, StakeError>(claimed) && *final(ctx) == next,
            Err(e) => result == Err::<u64, StakeError>(e) && *final(ctx) == *old(ctx),
        },
{
    let mut account = ctx.pda_account;
    match update_points(&mut account, current_time) {
        Ok(()) => {},
        Err(e) => {
            return Err(e);
        },
    }
    let claimable = claimable_points(account.total_points);
    account.total_points = 0;
    ctx.pda_account = account;
    Ok(claimable)
}

/// The micro-points that the record holds at `current_time`: its total and
/// what it has earned since its last update.
///
/// Nothing is stored: the record is read, not settled.
pub fn get_points(ctx: &StakeOperation, current_time: i64) -> (result: Result<u64, StakeError>)
    ensures
        result == ctx.points_at(current_time),
{
    let mut account = ctx.pda_account;
    match update_points(&mut account, current_time) {
        Ok(()) => Ok(account.total_points),
        Err(e) => Err(e),
    }
}

} // verus!
