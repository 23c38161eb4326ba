use chrono::{Datelike, Utc};
use daily_picture::date::{format_date, get_date};

#[test]
fn date_is_not_padded() {
    assert_eq!(format_date(2024, 5, 3), "2024-5-3");
}

#[test]
fn date_keeps_all_digits() {
    assert_eq!(format_date(2024, 12, 31), "2024-12-31");
    assert_eq!(format_date(2024, 10, 1), "2024-10-1");
    assert_eq!(format_date(1970, 1, 20), "1970-1-20");
    assert_eq!(format_date(100000, 11, 30), "100000-11-30");
}

#[test]
fn date_of_year_zero_and_before() {
    assert_eq!(format_date(0, 1, 1), "0-1-1");
    assert_eq!(format_date(-44, 3, 15), "-44-3-15");
    assert_eq!(format_date(i32::MIN, 1, 1), "-2147483648-1-1");
    assert_eq!(format_date(i32::MAX, 1, 1), "2147483647-1-1");
}

#[test]
fn date_renders_any_numbers() {
    assert_eq!(format_date(7, 0, 0), "7-0-0");
    assert_eq!(format_date(7, u32::MAX, 99), "7-4294967295-99");
}

#[test]
fn date_agrees_with_std_formatting() {
    for year in [-1000, -1, 0, 9, 10, 99, 100, 1999, 2024, 2100] {
        for month in 1..=12u32 {
            for day in [1u32, 9, 10, 28, 31] {
                assert_eq!(format_date(year, month, day), format!("{}-{}-{}", year, month, day));
            }
        }
    }
}

#[test]
fn today_is_the_day_of_the_clock() {
    let before = Utc::now().date_naive();
    let today = get_date();
    let after = Utc::now().date_naive();
    let expected_before = format!("{}-{}-{}", before.year(), before.month(), before.day());
    let expected_after = format!("{}-{}-{}", after.year(), after.month(), after.day());
    assert!(today == expected_before || today == expected_after);
}

#[test]
fn today_has_three_parts_in_range() {
    let today = get_date();
    let parts: Vec<&str> = today.split('-').collect();
    assert_eq!(parts.len(), 3);
    let year: i32 = parts[0].parse().unwrap();
    let month: u32 = parts[1].parse().unwrap();
    let day: u32 = parts[2].parse().unwrap();
    assert!(year >= 1970);
    assert!((1..=12).contains(&month));
    assert!((1..=31).contains(&day));
}
