use tusdt::voting::{day_of_month, integer_sqrt, voting_power, MS_PER_DAY};

#[test]
fn day_of_month_matches_known_dates() {
    assert_eq!(day_of_month(0), 1);
    assert_eq!(day_of_month(1_609_459_200_000), 1);
    assert_eq!(day_of_month(1_582_934_400_000), 29);
    assert_eq!(day_of_month(1_735_603_200_000), 31);
    // 2024-03-15 00:00:00 UTC, and mid-day on the same date.
    assert_eq!(day_of_month(1_710_460_800_000), 15);
    assert_eq!(day_of_month(1_710_460_800_000 + 12 * 60 * 60 * 1_000), 15);
}

#[test]
fn day_of_month_month_boundaries() {
    // 2023-02-28 (non-leap) is followed by March 1st.
    assert_eq!(day_of_month(1_677_542_400_000), 28);
    assert_eq!(day_of_month(1_677_542_400_000 + MS_PER_DAY), 1);
    // 2000-02-29 exists (divisible by 400); 1900 is before the epoch, 2100 is not a leap year.
    assert_eq!(day_of_month(951_782_400_000), 29);
    // 2100-02-28 is followed by March 1st.
    assert_eq!(day_of_month(4_107_456_000_000), 28);
    assert_eq!(day_of_month(4_107_456_000_000 + MS_PER_DAY), 1);
    // The last millisecond of 1970-01-31 and the first of February.
    assert_eq!(day_of_month(31 * MS_PER_DAY - 1), 31);
    assert_eq!(day_of_month(31 * MS_PER_DAY), 1);
}

#[test]
fn integer_sqrt_floors_correctly() {
    assert_eq!(integer_sqrt(0), 0);
    assert_eq!(integer_sqrt(1), 1);
    assert_eq!(integer_sqrt(2), 1);
    assert_eq!(integer_sqrt(3), 1);
    assert_eq!(integer_sqrt(4), 2);
    assert_eq!(integer_sqrt(8), 2);
    assert_eq!(integer_sqrt(9), 3);
    assert_eq!(integer_sqrt(1_000_000), 1_000);
    assert_eq!(integer_sqrt(4_000_000_000_000), 2_000_000);
    let big = (u64::MAX as u128) * (u64::MAX as u128);
    assert_eq!(integer_sqrt(big), u64::MAX as u128);
    assert_eq!(integer_sqrt(u128::MAX), u64::MAX as u128);
}

#[test]
fn vote_weight_is_sqrt_times_multiplier() {
    assert_eq!(voting_power(4_000_000_000_000, 10_000), Some(2_000_000));
    assert_eq!(voting_power(4_000_000_000_000, 8_000), Some(1_600_000));
    assert_eq!(voting_power(0, 10_000), Some(0));
    assert_eq!(voting_power(99, 15_000), Some(13));
    assert_eq!(voting_power(u128::MAX, u32::MAX), Some((u64::MAX as u128) * (u32::MAX as u128) / 10_000));
}
