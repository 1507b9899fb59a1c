use solana_stake::{update_points, StakeAccount, StakeError};

fn record(staked_amount: u64, total_points: u64, last_updated_time: i64) -> StakeAccount {
    StakeAccount { owner: [7u8; 32], staked_amount, total_points, last_updated_time, bump: 254 }
}

#[test]
fn settling_adds_the_points_earned() {
    let mut account = record(5_000_000_000, 7, 1_000);
    assert_eq!(update_points(&mut account, 1_000 + 86_400), Ok(()));
    assert_eq!(account, record(5_000_000_000, 5_000_007, 87_400));
}

#[test]
fn settling_leaves_owner_stake_and_bump_alone() {
    let mut account = record(1_000_000_000, 0, 0);
    update_points(&mut account, 43_200).unwrap();
    assert_eq!(account.owner, [7u8; 32]);
    assert_eq!(account.staked_amount, 1_000_000_000);
    assert_eq!(account.bump, 254);
    assert_eq!(account.total_points, 500_000);
    assert_eq!(account.last_updated_time, 43_200);
}

#[test]
fn settling_at_the_same_time_only_keeps_the_time() {
    let mut account = record(5_000_000_000, 123, 50);
    assert_eq!(update_points(&mut account, 50), Ok(()));
    assert_eq!(account, record(5_000_000_000, 123, 50));
}

#[test]
fn settling_with_nothing_staked_moves_the_time_only() {
    let mut account = record(0, 123, 50);
    assert_eq!(update_points(&mut account, 1_000_000), Ok(()));
    assert_eq!(account, record(0, 123, 1_000_000));
}

#[test]
fn settling_twice_at_one_time_counts_once() {
    let mut account = record(5_000_000_000, 0, 0);
    update_points(&mut account, 86_400).unwrap();
    let once = account;
    assert_eq!(update_points(&mut account, 86_400), Ok(()));
    assert_eq!(account, once);
    assert_eq!(account.total_points, 5_000_000);
}

#[test]
fn settling_in_two_steps_loses_only_fractions() {
    let mut whole = record(1_000_000_000, 0, 0);
    update_points(&mut whole, 3).unwrap();
    assert_eq!(whole.total_points, 34);
    let mut stepwise = record(1_000_000_000, 0, 0);
    update_points(&mut stepwise, 1).unwrap();
    update_points(&mut stepwise, 2).unwrap();
    update_points(&mut stepwise, 3).unwrap();
    assert_eq!(stepwise.total_points, 33);
}

#[test]
fn settling_before_the_last_update_is_refused() {
    let mut account = record(5_000_000_000, 9, 100);
    assert_eq!(update_points(&mut account, 99), Err(StakeError::InvalidTimestamp));
    assert_eq!(account, record(5_000_000_000, 9, 100));
}

#[test]
fn settling_far_before_the_last_update_is_refused() {
    let mut account = record(1, 0, i64::MAX);
    assert_eq!(update_points(&mut account, i64::MIN), Err(StakeError::InvalidTimestamp));
    assert_eq!(account, record(1, 0, i64::MAX));
    let mut negative = record(0, 0, -5);
    assert_eq!(update_points(&mut negative, -6), Err(StakeError::InvalidTimestamp));
    assert_eq!(negative, record(0, 0, -5));
}

#[test]
fn settling_over_negative_times() {
    let mut account = record(1_000_000_000, 0, -86_400);
    assert_eq!(update_points(&mut account, 0), Ok(()));
    assert_eq!(account, record(1_000_000_000, 1_000_000, 0));
}

#[test]
fn settling_over_the_longest_span() {
    let mut account = record(1, 5, i64::MIN);
    assert_eq!(update_points(&mut account, i64::MAX), Ok(()));
    assert_eq!(account, record(1, 213_503_982_339, i64::MAX));
}

#[test]
fn settling_overflows_where_the_points_do_not_fit() {
    let mut account = record(u64::MAX, 0, 0);
    assert_eq!(update_points(&mut account, 86_400_001), Err(StakeError::Overflow));
    assert_eq!(account, record(u64::MAX, 0, 0));
}

#[test]
fn settling_overflows_where_the_total_does_not_fit() {
    let mut account = record(5_000_000_000, u64::MAX - 4_999_999, 0);
    assert_eq!(update_points(&mut account, 86_400), Err(StakeError::Overflow));
    assert_eq!(account, record(5_000_000_000, u64::MAX - 4_999_999, 0));
}

#[test]
fn settling_reaches_the_largest_total() {
    let mut account = record(5_000_000_000, u64::MAX - 5_000_000, 0);
    assert_eq!(update_points(&mut account, 86_400), Ok(()));
    assert_eq!(account, record(5_000_000_000, u64::MAX, 86_400));
}

#[test]
fn owner_is_told_from_others() {
    let account = record(0, 0, 0);
    assert!(account.is_owned_by(&[7u8; 32]));
    assert!(!account.is_owned_by(&[8u8; 32]));
    let mut last_differs = [7u8; 32];
    last_differs[31] = 0;
    assert!(!account.is_owned_by(&last_differs));
    let mut first_differs = [7u8; 32];
    first_differs[0] = 8;
    assert!(!account.is_owned_by(&first_differs));
}
