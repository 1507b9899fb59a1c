//! What holds of the ledger whatever it is given, proved from what its
//! operations are stated to do.

use vstd::prelude::*;
use crate::account::StakeAccount;
use crate::context::{StakeOperation, StakeOperationMut};
use crate::error::StakeError;
use crate::points::{
    accrued_points, calculate_points_spec, lemma_accrued_points_zero, LAMPORTS_PER_SOL,
    MICRO_POINTS_PER_POINT, POINTS_PER_SOL_PER_DAY, SECONDS_PER_DAY,
};
use vstd::arithmetic::div_mod::lemma_div_is_ordered;

verus! {

/// More staked, or more time, never earns less: the accrued points do not
/// decrease when either argument grows.
pub proof fn theorem_accrual_monotonic(
    staked_a: int,
    elapsed_a: int,
    staked_b: int,
    elapsed_b: int,
)
    requires
        0 <= staked_a <= staked_b,
        0 <= elapsed_a <= elapsed_b,
    ensures
        0 <= accrued_points(staked_a, elapsed_a) <= accrued_points(staked_b, elapsed_b),
{
    assert(0 <= staked_a * elapsed_a <= staked_b * elapsed_b) by (nonlinear_arith)
        requires
            0 <= staked_a <= staked_b,
            0 <= elapsed_a <= elapsed_b,
    ;
    let rate = POINTS_PER_SOL_PER_DAY as int;
    let per_day = LAMPORTS_PER_SOL as int * SECONDS_PER_DAY as int;
    lemma_div_is_ordered(0, staked_a * elapsed_a * rate, per_day);
    lemma_div_is_ordered(staked_a * elapsed_a * rate, staked_b * elapsed_b * rate, per_day);
}

/// Where the points of the larger arguments fit in 64 bits, so do those of
/// the smaller, and they are no more.
pub proof fn theorem_calculate_points_monotonic(
    staked_a: u64,
    elapsed_a: u64,
    staked_b: u64,
    elapsed_b: u64,
)
    requires
        staked_a <= staked_b,
        elapsed_a <= elapsed_b,
    ensures
        calculate_points_spec(staked_b, elapsed_b) matches Ok(points_b) ==> (calculate_points_spec(
            staked_a,
            elapsed_a,
        ) matches Ok(points_a) && points_a <= points_b),
{
    theorem_accrual_monotonic(
        staked_a as int,
        elapsed_a as int,
        staked_b as int,
        elapsed_b as int,
    );
}

/// Nothing staked earns nothing, and no time earns nothing.
pub proof fn theorem_accrual_zero(staked_amount: u64, elapsed_seconds: u64)
    ensures
        accrued_points(0, elapsed_seconds as int) == 0,
        accrued_points(staked_amount as int, 0) == 0,
        calculate_points_spec(0, elapsed_seconds) == Ok::<u64, StakeError>(0),
        calculate_points_spec(staked_amount, 0) == Ok::<u64, StakeError>(0),
{
    lemma_accrued_points_zero(0, elapsed_seconds as int);
    lemma_accrued_points_zero(staked_amount as int, 0);
}

/// What a settlement keeps: the owner, the address tag and the staked amount
/// stay, the points do not go down, and the time of the last update moves to
/// the time handed in, which is not before the time it was.
pub open spec fn settlement_keeps(
    before: StakeAccount,
    after: StakeAccount,
    current_time: i64,
) -> bool {
    &&& after.owner == before.owner
    &&& after.bump == before.bump
    &&& after.staked_amount == before.staked_amount
    &&& after.total_points >= before.total_points
    &&& after.last_updated_time == current_time
    &&& after.last_updated_time >= before.last_updated_time
}

/// A record never changes its owner or its address tag, its time never goes
/// back, and its points go down only when a claim sets them to zero.
///
/// A settlement, and the settlement inside a deposit, a withdrawal or a claim,
/// keeps what `settlement_keeps` names. A deposit and a withdrawal then change
/// the staked amount alone, and a claim the points alone.
pub proof fn theorem_record_invariants(ctx: StakeOperationMut, amount: u64, current_time: i64)
    ensures
        ctx.pda_account.settled(current_time) matches Ok(settled) ==> settlement_keeps(
            ctx.pda_account,
            settled,
            current_time,
        ),
        ctx.after_stake(amount, current_time) matches Ok(next) ==> {
            &&& ctx.pda_account.settled(current_time) matches Ok(settled)
            &&& next.pda_account == (StakeAccount {
                staked_amount: next.pda_account.staked_amount,
                ..settled
            })
        },
        ctx.after_unstake(amount, current_time) matches Ok(next) ==> {
            &&& ctx.pda_account.settled(current_time) matches Ok(settled)
            &&& next.pda_account == (StakeAccount {
                staked_amount: next.pda_account.staked_amount,
                ..settled
            })
        },
        ctx.after_claim(current_time) matches Ok((next, _)) ==> {
            &&& ctx.pda_account.settled(current_time) matches Ok(settled)
            &&& next.pda_account == (StakeAccount { total_points: 0, ..settled })
        },
{
    if current_time >= ctx.pda_account.last_updated_time {
        theorem_accrual_monotonic(
            0,
            0,
            ctx.pda_account.staked_amount as int,
            current_time - ctx.pda_account.last_updated_time,
        );
    }
}

/// Settling twice at one time is settling once: the second settlement finds
/// no time gone by, adds nothing, and leaves the record as the first made it.
pub proof fn theorem_settle_idempotent(account: StakeAccount, current_time: i64)
    ensures
        account.settled(current_time) matches Ok(once) ==> once.settled(current_time) == Ok::<
            StakeAccount,
            StakeError,
        >(once),
{
    if let Ok(once) = account.settled(current_time) {
        lemma_accrued_points_zero(once.staked_amount as int, 0);
    }
}

/// Asking for the points twice at one time gives one answer, whether or not
/// the record was settled and stored in between: no point is counted twice.
pub proof fn theorem_query_idempotent(ctx: StakeOperation, current_time: i64)
    ensures
        ctx.pda_account.settled(current_time) matches Ok(once) ==> (StakeOperation {
            pda_account: once,
            ..ctx
        }).points_at(current_time) == ctx.points_at(current_time),
{
    theorem_settle_idempotent(ctx.pda_account, current_time);
}

/// A claim succeeds exactly where the settlement does. It reports the whole
/// points of the settled total, dropping what is left of a point, and leaves a
/// total of exactly zero. Where no points were earned since the last update,
/// the settled total is the total that the record held before.
pub proof fn theorem_claim_resets(ctx: StakeOperationMut, current_time: i64)
    ensures
        ctx.after_claim(current_time) is Ok <==> ctx.pda_account.settled(current_time) is Ok,
        ctx.after_claim(current_time) matches Ok((next, claimed)) ==> {
            &&& ctx.pda_account.settled(current_time) matches Ok(settled)
            &&& next.pda_account.total_points == 0
            &&& claimed == settled.total_points / MICRO_POINTS_PER_POINT
            &&& claimed * MICRO_POINTS_PER_POINT <= settled.total_points < (claimed + 1)
                * MICRO_POINTS_PER_POINT
            &&& (current_time == ctx.pda_account.last_updated_time || ctx.pda_account.staked_amount
                == 0) ==> claimed == ctx.pda_account.total_points / MICRO_POINTS_PER_POINT
        },
{
    lemma_accrued_points_zero(
        ctx.pda_account.staked_amount as int,
        current_time - ctx.pda_account.last_updated_time,
    );
}

/// A withdrawal of more than is staked never succeeds, and it fails with
/// `InsufficientStake` wherever the record can be settled at that time. As
/// `unstake` ensures of every failure, the accounts are then left as they were.
pub proof fn theorem_withdraw_beyond_stake(ctx: StakeOperationMut, amount: u64, current_time: i64)
    requires
        amount > ctx.pda_account.staked_amount,
    ensures
        ctx.after_unstake(amount, current_time) is Err,
        ctx.pda_account.settled(current_time) is Ok ==> ctx.after_unstake(amount, current_time)
            == Err::<StakeOperationMut, StakeError>(StakeError::InsufficientStake),
{
}

/// A deposit or a withdrawal of zero fails with `InvalidAmount`, whatever the
/// record and the time. As `stake` and `unstake` ensure of every failure, the
/// accounts are then left as they were.
pub proof fn theorem_zero_amount_refused(ctx: StakeOperationMut, current_time: i64)
    ensures
        ctx.after_stake(0, current_time) == Err::<StakeOperationMut, StakeError>(
            StakeError::InvalidAmount,
        ),
        ctx.after_unstake(0, current_time) == Err::<StakeOperationMut, StakeError>(
            StakeError::InvalidAmount,
        ),
{
}

/// A time before the record's last update fails every operation with
/// `InvalidTimestamp`: settlement, claim, query, and every deposit or
/// withdrawal of an amount other than zero. (An amount of zero is refused
/// first, as an `InvalidAmount`.) As each operation ensures of every failure,
/// the accounts are then left as they were.
pub proof fn theorem_time_must_not_go_back(ctx: StakeOperationMut, amount: u64, current_time: i64)
    requires
        current_time < ctx.pda_account.last_updated_time,
    ensures
        ctx.pda_account.settled(current_time) == Err::<StakeAccount, StakeError>(
            StakeError::InvalidTimestamp,
        ),
        ctx.after_claim(current_time) == Err::<(StakeOperationMut, u64), StakeError>(
            StakeError::InvalidTimestamp,
        ),
        (StakeOperation { user: ctx.user, pda_account: ctx.pda_account }).points_at(current_time)
            == Err::<u64, StakeError>(StakeError::InvalidTimestamp),
        amount > 0 ==> ctx.after_stake(amount, current_time) == Err::<
            StakeOperationMut,
            StakeError,
        >(StakeError::InvalidTimestamp),
        amount > 0 ==> ctx.after_unstake(amount, current_time) == Err::<
            StakeOperationMut,
            StakeError,
        >(StakeError::InvalidTimestamp),
{
}

} // verus!
