//! The stake record and the settlement that brings its points up to date.

use vstd::prelude::*;
use crate::error::StakeError;
use crate::points::{accrued_points, calculate_points, lemma_accrued_points_zero};

verus! {

/// The identity of a user: a 32-byte public key.
pub type Pubkey = [u8; 32];

/// The ledger entry of one owner.
#[derive(Clone, Copy, Debug, PartialEq, Eq)]
pub struct StakeAccount {
    /// Who controls the record. Set at creation and never changed.
    pub owner: Pubkey,
    /// Lamports staked: what was deposited less what was withdrawn.
    pub staked_amount: u64,
    /// Micro-points earned up to `last_updated_time` and not yet claimed.
    pub total_points: u64,
    /// The time, in seconds, up to which points have been counted.
    pub last_updated_time: i64,
    /// The tag with which the record's address is derived. Carried, never read.
    pub bump: u8,
}

impl StakeAccount {
    /// The record as it stands once its points are counted up to `current_time`.
    ///
    /// A time before the last update is an `InvalidTimestamp`. Otherwise the
    /// points earned since the last update are added to the total, which is an
    /// `Overflow` where the sum does not fit in 64 bits, and the time of the
    /// last update becomes `current_time`.
    pub open spec fn settled(self, current_time: i64) -> Result<StakeAccount, StakeError> {
        if current_time < self.last_updated_time {
            Err(StakeError::InvalidTimestamp)
        } else {
            let total = self.total_points + accrued_points(
                self.staked_amount as int,
                current_time - self.last_updated_time,
            );
            if total > u64::MAX {
                Err(StakeError::Overflow)
            } else {
                Ok(
                    StakeAccount {
                        total_points: total as u64,
                        last_updated_time: current_time,
                        ..self
                    },
                )
            }
        }
    }

    /// Whether `key` is the owner of this record.
    pub fn is_owned_by(&self, key: &Pubkey) -> (result: bool)
        ensures
            result == (self.owner == *key),
    {
        let mut i: usize = 0;
        while i < 32
            invariant
                0 <= i <= 32,
                forall|j: int| 0 <= j < i ==> self.owner[j] == key[j],
            decreases 32 - i,
        {
            if self.owner[i] != key[i] {
                return false;
            }
            i += 1;
        }
        assert(self.owner =~= *key);
        true
    }
}

/// Counts the points of `account` up to `current_time`.
///
/// This is the step that every operation on a record takes first. On success
/// the record is the settled one. On failure it is left as it was.
pub fn update_points(account: &mut StakeAccount, current_time: i64) -> (result: Result<
    (),
    StakeError,
>)
    ensures
        match old(account).settled(current_time) {
            Ok(next) => result is Ok && *final(account) == next,
            Err(e) => result == Err::<(), StakeError>(e) && *final(account) == *old(account),
        },
{
    if current_time < account.last_updated_time {
        return Err(StakeError::InvalidTimestamp);
    }
    let time_elapsed: u64 = (current_time as i128 - account.last_updated_time as i128) as u64;
    proof {
        lemma_accrued_points_zero(account.staked_amount as int, time_elapsed as int);
    }
    if time_elapsed > 0 && account.staked_amount > 0 {
        let new_points = match calculate_points(account.staked_amount, time_elapsed) {
            Ok(p) => p,
            Err(e) => {
                return Err(e);
            },
        };
        let total = match account.total_points.checked_add(new_points) {
            Some(t) => t,
            None => {
                return Err(StakeError::Overflow);
            },
        };
        account.total_points = total;
    }
    account.last_updated_time = current_time;
    Ok(())
}

} // verus!
