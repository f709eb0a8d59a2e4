use sil::clock::{days_in_month, is_leap_year, next_day, LocalInstant};

fn at(year: i32, month: u8, day: u8, hour: u8, minute: u8, second: u8) -> LocalInstant {
    LocalInstant { year, month, day, hour, minute, second }
}

#[test]
fn leap_years() {
    assert!(is_leap_year(2024));
    assert!(!is_leap_year(2023));
    assert!(!is_leap_year(1900));
    assert!(is_leap_year(2000));
}

#[test]
fn month_lengths() {
    assert_eq!(days_in_month(2024, 2), 29);
    assert_eq!(days_in_month(2025, 2), 28);
    assert_eq!(days_in_month(2024, 1), 31);
    assert_eq!(days_in_month(2024, 4), 30);
    assert_eq!(days_in_month(2024, 12), 31);
}

#[test]
fn successor_within_month() {
    assert_eq!(next_day(&at(2024, 6, 15, 0, 0, 0)), (2024, 6, 16));
}

#[test]
fn successor_at_month_end() {
    assert_eq!(next_day(&at(2024, 6, 30, 23, 59, 59)), (2024, 7, 1));
    assert_eq!(next_day(&at(2024, 2, 29, 0, 0, 0)), (2024, 3, 1));
    assert_eq!(next_day(&at(2025, 2, 28, 0, 0, 0)), (2025, 3, 1));
}

#[test]
fn successor_at_year_end() {
    assert_eq!(next_day(&at(2024, 12, 31, 21, 0, 0)), (2025, 1, 1));
}

#[test]
fn seconds_to_midnight_counts_down() {
    assert_eq!(at(2024, 12, 31, 23, 30, 0).seconds_to_midnight(), 1800);
    assert_eq!(at(2024, 12, 31, 0, 0, 0).seconds_to_midnight(), 86400);
    assert_eq!(at(2024, 12, 31, 23, 59, 59).seconds_to_midnight(), 1);
}
