use gdyx_study::time_utils::{days_since_epoch_to_year, is_leap, year_start_timestamp};

#[test]
fn leap_years_follow_the_gregorian_rule() {
    assert!(is_leap(2000));
    assert!(is_leap(2024));
    assert!(!is_leap(1900));
    assert!(!is_leap(2023));
    assert!(!is_leap(2100));
    assert!(is_leap(-4));
}

#[test]
fn year_start_timestamps_are_exact() {
    assert_eq!(year_start_timestamp(1970), 0);
    assert_eq!(year_start_timestamp(1971), 31_536_000);
    assert_eq!(year_start_timestamp(2000), 946_684_800);
    assert_eq!(year_start_timestamp(2024), 1_704_067_200);
    assert_eq!(year_start_timestamp(2025), 1_735_689_600);
}

#[test]
fn years_before_1970_count_back() {
    assert_eq!(year_start_timestamp(1969), -31_536_000);
    assert_eq!(year_start_timestamp(1968), -63_158_400);
    assert_eq!(year_start_timestamp(1960), -315_619_200);
    assert_eq!(year_start_timestamp(1900), -2_208_988_800);
    assert_eq!(year_start_timestamp(1600), -11_676_096_000);
}

#[test]
fn day_numbers_map_to_their_year() {
    assert_eq!(days_since_epoch_to_year(0), 1970);
    assert_eq!(days_since_epoch_to_year(364), 1970);
    assert_eq!(days_since_epoch_to_year(365), 1971);
    assert_eq!(days_since_epoch_to_year(19_722), 2023);
    assert_eq!(days_since_epoch_to_year(19_723), 2024);
    assert_eq!(days_since_epoch_to_year(20_088), 2024);
    assert_eq!(days_since_epoch_to_year(20_089), 2025);
}

#[test]
fn days_before_the_epoch_fall_in_1970() {
    assert_eq!(days_since_epoch_to_year(-1), 1970);
    assert_eq!(days_since_epoch_to_year(i64::MIN), 1970);
}

#[test]
fn years_stay_within_1970_to_2100() {
    let start_2100 = year_start_timestamp(2100) / 86_400;
    let start_2101 = year_start_timestamp(2101) / 86_400;
    assert_eq!(days_since_epoch_to_year(start_2100 - 1), 2099);
    assert_eq!(days_since_epoch_to_year(start_2100), 2100);
    assert_eq!(days_since_epoch_to_year(start_2101 - 1), 2100);
    assert_eq!(days_since_epoch_to_year(start_2101), 2100);
    assert_eq!(days_since_epoch_to_year(i64::MAX), 2100);
}

#[test]
fn year_start_round_trip_holds_for_every_year() {
    for year in 1970..=2100 {
        let day = year_start_timestamp(year) / 86_400;
        assert_eq!(days_since_epoch_to_year(day), year);
    }
}

#[test]
fn year_start_is_never_after_now() {
    for now in [0i64, 1, 86_399, 86_400, 1_704_067_199, 1_704_067_200, 1_718_000_000] {
        let year = days_since_epoch_to_year(now / 86_400);
        assert!(year_start_timestamp(year) <= now);
        assert!(now < year_start_timestamp(year + 1));
    }
}

#[test]
fn year_starts_grow_by_365_or_366_days() {
    for year in 1600..2101 {
        let gap = year_start_timestamp(year + 1) - year_start_timestamp(year);
        let days = if is_leap(year) { 366 } else { 365 };
        assert_eq!(gap, days * 86_400);
    }
}
