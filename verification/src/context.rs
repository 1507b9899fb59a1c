//! The accounts that each instruction works on, as plain values.

use vstd::prelude::*;
use crate::account::{Pubkey, StakeAccount};
use crate::error::StakeError;

verus! {

/// The accounts of the instruction that creates a record.
#[derive(Clone, Copy, Debug, PartialEq, Eq)]
pub struct CreatePda {
    /// Who pays for the record and becomes its owner.
    pub payer: Pubkey,
    /// The record to fill in.
    pub pda_account: StakeAccount,
}

/// The accounts of an instruction that changes a record: deposit, withdrawal
/// and claim.
#[derive(Clone, Copy, Debug, PartialEq, Eq)]
pub struct StakeOperationMut {
    /// Who signed the instruction.
    pub user: Pubkey,
    /// The lamports that the signer holds.
    pub user_lamports: u64,
    /// The record.
    pub pda_account: StakeAccount,
    /// The lamports that back the record.
    pub pda_lamports: u64,
}

/// The accounts of the instruction that asks for a record's points.
#[derive(Clone, Copy, Debug, PartialEq, Eq)]
pub struct StakeOperation {
    /// Who signed the instruction.
    pub user: Pubkey,
    /// The record.
    pub pda_account: StakeAccount,
}

impl StakeOperationMut {
    /// Lets the instruction pass only where the signer owns the record.
    pub fn authorize(&self) -> (result: Result<(), StakeError>)
        ensures
            self.pda_account.owner == self.user ==> result is Ok,
            self.pda_account.owner != self.user ==> result == Err::<(), StakeError>(
                StakeError::Unauthorized,
            ),
    {
        if self.pda_account.is_owned_by(&self.user) {
            Ok(())
        } else {
            Err(StakeError::Unauthorized)
        }
    }
}

impl StakeOperation {
    /// Lets the instruction pass only where the signer owns the record.
    pub fn authorize(&self) -> (result: Result<(), StakeError>)
        ensures
            self.pda_account.owner == self.user ==> result is Ok,
            self.pda_account.owner != self.user ==> result == Err::<(), StakeError>(
                StakeError::Unauthorized,
            ),
    {
        if self.pda_account.is_owned_by(&self.user) {
            Ok(())
        } else {
            Err(StakeError::Unauthorized)
        }
    }
}

} // verus!
