use solana_stake::{
    calculate_points, claimable_points, StakeError, LAMPORTS_PER_SOL, MICRO_POINTS_PER_POINT,
    POINTS_PER_SOL_PER_DAY, SECONDS_PER_DAY,
};

#[test]
fn constants_have_their_values() {
    assert_eq!(POINTS_PER_SOL_PER_DAY, 1_000_000);
    assert_eq!(LAMPORTS_PER_SOL, 1_000_000_000);
    assert_eq!(SECONDS_PER_DAY, 86_400);
    assert_eq!(MICRO_POINTS_PER_POINT, 1_000_000);
}

#[test]
fn one_sol_for_one_day_earns_one_point() {
    assert_eq!(calculate_points(LAMPORTS_PER_SOL, SECONDS_PER_DAY), Ok(1_000_000));
}

#[test]
fn five_sol_for_one_day_earns_five_points() {
    assert_eq!(calculate_points(5_000_000_000, 86_400), Ok(5_000_000));
}

#[test]
fn one_sol_for_half_a_day_earns_half_a_point() {
    assert_eq!(calculate_points(1_000_000_000, 43_200), Ok(500_000));
}

#[test]
fn amount_and_time_can_be_swapped_in_the_product() {
    assert_eq!(calculate_points(86_400, 1_000_000_000), Ok(1_000_000));
}

#[test]
fn points_are_rounded_down() {
    // 1e9 * 1 * 1e6 / 8.64e13 = 11.57...
    assert_eq!(calculate_points(1_000_000_000, 1), Ok(11));
    // 123_456_789_012 * 3_600 * 1e6 / 8.64e13 = 5_144_032.87...
    assert_eq!(calculate_points(123_456_789_012, 3_600), Ok(5_144_032));
    // 7.5 SOL for a week and 1234 seconds
    assert_eq!(calculate_points(7_500_000_000, 7 * 86_400 + 1_234), Ok(52_607_118));
}

#[test]
fn less_than_a_micro_point_is_lost() {
    assert_eq!(calculate_points(1, 86_399), Ok(0));
    assert_eq!(calculate_points(1, 86_400), Ok(0));
    assert_eq!(calculate_points(86_399_999, 1), Ok(0));
    assert_eq!(calculate_points(86_400_000, 1), Ok(1));
}

#[test]
fn nothing_staked_earns_nothing() {
    assert_eq!(calculate_points(0, 0), Ok(0));
    assert_eq!(calculate_points(0, 1), Ok(0));
    assert_eq!(calculate_points(0, 86_400), Ok(0));
    assert_eq!(calculate_points(0, u64::MAX), Ok(0));
}

#[test]
fn no_time_earns_nothing() {
    assert_eq!(calculate_points(1, 0), Ok(0));
    assert_eq!(calculate_points(5_000_000_000, 0), Ok(0));
    assert_eq!(calculate_points(u64::MAX, 0), Ok(0));
}

#[test]
fn points_do_not_decrease_with_amount_or_time() {
    let amounts: [u64; 6] = [0, 1, 86_400_000, 1_000_000_000, 5_000_000_000, 123_456_789_012];
    let times: [u64; 6] = [0, 1, 59, 3_600, 86_400, 604_800];
    for (i, a) in amounts.iter().enumerate() {
        for (j, t) in times.iter().enumerate() {
            let here = calculate_points(*a, *t).unwrap();
            if i + 1 < amounts.len() {
                assert!(here <= calculate_points(amounts[i + 1], *t).unwrap());
            }
            if j + 1 < times.len() {
                assert!(here <= calculate_points(*a, times[j + 1]).unwrap());
            }
        }
    }
}

#[test]
fn largest_amount_for_one_day() {
    assert_eq!(calculate_points(u64::MAX, 86_400), Ok(18_446_744_073_709_551));
}

#[test]
fn longest_time_for_one_lamport() {
    assert_eq!(calculate_points(1, u64::MAX), Ok(213_503_982_334));
}

#[test]
fn points_that_just_fit() {
    assert_eq!(calculate_points(u64::MAX, 86_400_000), Ok(u64::MAX));
}

#[test]
fn points_that_just_do_not_fit_overflow() {
    assert_eq!(calculate_points(u64::MAX, 86_400_001), Err(StakeError::Overflow));
}

#[test]
fn quotient_beyond_64_bits_overflows() {
    // The numerator still fits in 128 bits; the quotient does not fit in 64.
    assert_eq!(calculate_points(u64::MAX, 1_000_000_000), Err(StakeError::Overflow));
}

#[test]
fn numerator_beyond_128_bits_overflows() {
    assert_eq!(calculate_points(u64::MAX, u64::MAX), Err(StakeError::Overflow));
    assert_eq!(calculate_points(1 << 63, 1 << 62), Err(StakeError::Overflow));
}

#[test]
fn claimable_points_drop_the_fraction() {
    assert_eq!(claimable_points(0), 0);
    assert_eq!(claimable_points(999_999), 0);
    assert_eq!(claimable_points(1_000_000), 1);
    assert_eq!(claimable_points(1_999_999), 1);
    assert_eq!(claimable_points(5_000_000), 5);
    assert_eq!(claimable_points(u64::MAX), 18_446_744_073_709);
}
