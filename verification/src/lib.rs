//! A verified staking ledger: one record per owner, a staked balance, and
//! points that accrue with the amount staked and the time it stays staked.

pub mod account;
pub mod context;
pub mod error;
pub mod history;
pub mod instructions;
pub mod points;
pub mod theorems;

pub use account::{update_points, Pubkey, StakeAccount};
pub use context::{CreatePda, StakeOperation, StakeOperationMut};
pub use error::StakeError;
pub use instructions::{claim_points, create_pda, get_points, stake, unstake};
pub use points::{
    calculate_points, claimable_points, LAMPORTS_PER_SOL, MICRO_POINTS_PER_POINT,
    POINTS_PER_SOL_PER_DAY, SECONDS_PER_DAY,
};
