use utc_time::calendar::{leap_year, month_length, MAX_YEAR, MIN_YEAR};
use utc_time::NaiveDateTime;

#[test]
fn leap_years_follow_the_gregorian_rule() {
    assert!(leap_year(2024));
    assert!(leap_year(2000));
    assert!(leap_year(0));
    assert!(leap_year(-4));
    assert!(!leap_year(1900));
    assert!(!leap_year(2100));
    assert!(!leap_year(2025));
    assert!(!leap_year(-1));
}

#[test]
fn months_have_their_lengths() {
    let lengths = [31, 28, 31, 30, 31, 30, 31, 31, 30, 31, 30, 31];
    for month in 1..=12u32 {
        assert_eq!(month_length(2025, month), lengths[(month - 1) as usize]);
    }
    assert_eq!(month_length(2024, 2), 29);
    assert_eq!(month_length(1900, 2), 28);
}

#[test]
fn the_calendar_agrees_with_chrono() {
    for year in [-262143, -401, -400, -1, 0, 1, 4, 99, 100, 1900, 1969, 2000, 2024, 2025, 262142] {
        for month in 0..=13u32 {
            for day in 0..=32u32 {
                let ours = NaiveDateTime::new(year, month, day, 0, 0, 0).is_some();
                let theirs = chrono::NaiveDate::from_ymd_opt(year, month, day).is_some();
                assert_eq!(ours, theirs, "{year}-{month}-{day}");
            }
        }
    }
}

#[test]
fn the_supported_years_are_those_of_chrono() {
    assert!(chrono::NaiveDate::from_ymd_opt(MIN_YEAR, 1, 1).is_some());
    assert!(chrono::NaiveDate::from_ymd_opt(MIN_YEAR - 1, 12, 31).is_none());
    assert!(chrono::NaiveDate::from_ymd_opt(MAX_YEAR, 12, 31).is_some());
    assert!(chrono::NaiveDate::from_ymd_opt(MAX_YEAR + 1, 1, 1).is_none());
    assert!(NaiveDateTime::new(MIN_YEAR, 1, 1, 0, 0, 0).is_some());
    assert!(NaiveDateTime::new(MIN_YEAR - 1, 12, 31, 0, 0, 0).is_none());
    assert!(NaiveDateTime::new(MAX_YEAR, 12, 31, 23, 59, 59).is_some());
    assert!(NaiveDateTime::new(MAX_YEAR + 1, 1, 1, 0, 0, 0).is_none());
}

#[test]
fn times_of_day_end_before_midnight() {
    assert!(NaiveDateTime::new(2025, 1, 1, 23, 59, 59).is_some());
    assert!(NaiveDateTime::new(2025, 1, 1, 24, 0, 0).is_none());
    assert!(NaiveDateTime::new(2025, 1, 1, 0, 60, 0).is_none());
    assert!(NaiveDateTime::new(2025, 1, 1, 0, 0, 60).is_none());
}

#[test]
fn a_value_knows_whether_it_is_valid() {
    let good = NaiveDateTime { year: 2025, month: 9, day: 22, hour: 21, minute: 0, second: 0 };
    assert!(good.check_valid());
    assert!(good.check_inner());
    let bad = NaiveDateTime { year: 2025, month: 4, day: 31, hour: 21, minute: 0, second: 0 };
    assert!(!bad.check_valid());
    let edge = NaiveDateTime { year: MAX_YEAR, month: 12, day: 31, hour: 0, minute: 0, second: 0 };
    assert!(edge.check_valid());
    assert!(!edge.check_inner());
}

#[test]
fn a_day_can_be_given_another_time() {
    let day = NaiveDateTime::new(2025, 9, 22, 21, 15, 42).unwrap();
    assert_eq!(day.on_same_day(7, 5), NaiveDateTime::new(2025, 9, 22, 7, 5, 0).unwrap());
}
