use utc_time::convert::utc_of_resolution;
use utc_time::{
    convert, parse_input, ConversionError, Direction, NaiveDateTime, ZoneResolution,
};

fn at(year: i32, month: u32, day: u32, hour: u32, minute: u32, second: u32) -> NaiveDateTime {
    NaiveDateTime::new(year, month, day, hour, minute, second).unwrap()
}

#[test]
fn an_evening_in_brisbane_is_the_morning_in_utc() {
    let now = at(2025, 1, 1, 0, 0, 0);
    let local = parse_input("21:00 22-09-2025", &now).unwrap();
    let result = convert(local, Direction::LocalToUtc).unwrap();
    assert_eq!(result.utc, at(2025, 9, 22, 11, 0, 0));
    assert_eq!(result.local, at(2025, 9, 22, 21, 0, 0));
    assert_eq!(result.abbreviation, "AEST");
    assert_eq!(result.direction, Direction::LocalToUtc);
    let (first, second) = result.output_lines();
    assert_eq!(first, "UTC: 2025-09-22T11:00:00+00:00");
    assert_eq!(second, "Brisbane: 2025-09-22 21:00 AEST");
}

#[test]
fn a_time_alone_is_converted_from_utc() {
    let now = at(2025, 9, 22, 3, 0, 0);
    let utc = parse_input("14:30", &now).unwrap();
    assert_eq!(utc, at(2025, 9, 22, 14, 30, 0));
    let result = convert(utc, Direction::UtcToLocal).unwrap();
    assert_eq!(result.utc, at(2025, 9, 22, 14, 30, 0));
    assert_eq!(result.local, at(2025, 9, 23, 0, 30, 0));
    assert_eq!(result.direction, Direction::UtcToLocal);
    let (first, second) = result.output_lines();
    assert_eq!(first, "Brisbane: 2025-09-23 00:30 AEST");
    assert_eq!(second, "UTC: 2025-09-22T14:30:00+00:00");
}

#[test]
fn the_morning_in_brisbane_is_the_day_before_in_utc() {
    let result = convert(at(2025, 1, 1, 9, 59, 0), Direction::LocalToUtc).unwrap();
    assert_eq!(result.utc, at(2024, 12, 31, 23, 59, 0));
    assert_eq!(result.utc_text(), "UTC: 2024-12-31T23:59:00+00:00");
    assert_eq!(result.local_text(), "Brisbane: 2025-01-01 09:59 AEST");
}

#[test]
fn there_and_back_is_the_same_time() {
    for local in [
        at(2025, 9, 22, 21, 0, 0),
        at(2024, 2, 29, 0, 0, 0),
        at(1999, 12, 31, 23, 59, 0),
        at(1990, 1, 15, 12, 0, 0),
        at(1972, 1, 1, 2, 30, 0),
        at(1942, 12, 25, 8, 0, 0),
        at(1917, 2, 1, 10, 0, 0),
        at(1890, 1, 1, 0, 0, 0),
        at(100, 6, 15, 6, 30, 0),
        at(9999, 12, 31, 23, 59, 0),
    ] {
        let there = convert(local, Direction::LocalToUtc).unwrap();
        assert_ne!(there.utc, local);
        let back = convert(there.utc, Direction::UtcToLocal).unwrap();
        assert_eq!(back.local, local);
        assert_eq!(back.utc, there.utc);
        assert_eq!(back.abbreviation, there.abbreviation);
    }
}

#[test]
fn summer_time_was_kept_in_1990() {
    let result = convert(at(1990, 1, 15, 12, 0, 0), Direction::LocalToUtc).unwrap();
    assert_eq!(result.utc, at(1990, 1, 15, 1, 0, 0));
    assert_eq!(result.abbreviation, "AEDT");
    let result = convert(at(1990, 1, 15, 1, 0, 0), Direction::UtcToLocal).unwrap();
    assert_eq!(result.local, at(1990, 1, 15, 12, 0, 0));
    assert_eq!(result.local_text(), "Brisbane: 1990-01-15 12:00 AEDT");
}

#[test]
fn a_skipped_time_does_not_exist() {
    let skipped = at(1989, 10, 29, 2, 30, 0);
    assert_eq!(convert(skipped, Direction::LocalToUtc), Err(ConversionError::NonExistentLocalTime));
    let before = convert(at(1989, 10, 29, 1, 59, 0), Direction::LocalToUtc).unwrap();
    assert_eq!(before.utc, at(1989, 10, 28, 15, 59, 0));
    let after = convert(at(1989, 10, 29, 3, 0, 0), Direction::LocalToUtc).unwrap();
    assert_eq!(after.utc, at(1989, 10, 28, 16, 0, 0));
}

#[test]
fn a_repeated_time_is_ambiguous() {
    let repeated = at(1990, 3, 4, 2, 30, 0);
    assert_eq!(convert(repeated, Direction::LocalToUtc), Err(ConversionError::AmbiguousLocalTime));
    let after = convert(at(1990, 3, 4, 3, 0, 0), Direction::LocalToUtc).unwrap();
    assert_eq!(after.utc, at(1990, 3, 3, 17, 0, 0));
    assert_eq!(after.abbreviation, "AEST");
}

#[test]
fn a_utc_time_always_has_a_time_in_brisbane() {
    let first = convert(at(1990, 3, 3, 15, 30, 0), Direction::UtcToLocal).unwrap();
    assert_eq!(first.local, at(1990, 3, 4, 2, 30, 0));
    assert_eq!(first.abbreviation, "AEDT");
    let second = convert(at(1990, 3, 3, 16, 30, 0), Direction::UtcToLocal).unwrap();
    assert_eq!(second.local, at(1990, 3, 4, 2, 30, 0));
    assert_eq!(second.abbreviation, "AEST");
}

#[test]
fn local_mean_time_has_seconds() {
    let there = convert(at(1890, 1, 1, 0, 0, 0), Direction::LocalToUtc).unwrap();
    assert_eq!(there.utc, at(1889, 12, 31, 13, 47, 52));
    assert_eq!(there.abbreviation, "LMT");
    let (first, second) = there.output_lines();
    assert_eq!(first, "UTC: 1889-12-31T13:47:52+00:00");
    assert_eq!(second, "Brisbane: 1890-01-01 00:00 LMT");
}

#[test]
fn the_year_10000_is_written_with_a_sign() {
    let result = convert(at(9999, 12, 31, 20, 0, 0), Direction::UtcToLocal).unwrap();
    assert_eq!(result.local, at(10000, 1, 1, 6, 0, 0));
    let (first, second) = result.output_lines();
    assert_eq!(first, "Brisbane: +10000-01-01 06:00 AEST");
    assert_eq!(second, "UTC: 9999-12-31T20:00:00+00:00");
}

#[test]
fn each_outcome_of_the_zone_has_its_result() {
    let utc = at(2025, 9, 22, 11, 0, 0);
    assert_eq!(utc_of_resolution(ZoneResolution::Single(utc)), Ok(utc));
    assert_eq!(
        utc_of_resolution(ZoneResolution::NonExistent),
        Err(ConversionError::NonExistentLocalTime)
    );
    assert_eq!(
        utc_of_resolution(ZoneResolution::Ambiguous),
        Err(ConversionError::AmbiguousLocalTime)
    );
}

#[test]
fn the_edges_of_the_supported_years_do_not_panic() {
    let last = at(262142, 12, 31, 23, 59, 59);
    let there = convert(last, Direction::LocalToUtc).unwrap();
    assert_eq!(there.utc, at(262142, 12, 31, 13, 59, 59));
    let first = at(-262143, 1, 1, 0, 0, 0);
    assert_eq!(convert(first, Direction::LocalToUtc), Err(ConversionError::NonExistentLocalTime));
    let inner = at(262141, 12, 31, 23, 0, 0);
    let back = convert(inner, Direction::UtcToLocal).unwrap();
    assert_eq!(back.local, at(262142, 1, 1, 9, 0, 0));
}

fn sweep(from_year: i32, to_year: i32) -> Vec<NaiveDateTime> {
    let mut times = Vec::new();
    for year in from_year..=to_year {
        for month in 1..=12u32 {
            for day in 1..=31u32 {
                for hour in 0..24u32 {
                    for minute in [0u32, 30] {
                        if let Some(time) = NaiveDateTime::new(year, month, day, hour, minute, 0) {
                            times.push(time);
                        }
                    }
                }
            }
        }
    }
    times
}

#[test]
fn every_single_time_comes_back_through_the_years_of_change() {
    let mut single = 0;
    let mut skipped = 0;
    let mut repeated = 0;
    for (from_year, to_year) in [(1894, 1895), (1916, 1917), (1941, 1944), (1971, 1972), (1989, 1992)] {
        for local in sweep(from_year, to_year) {
            match convert(local, Direction::LocalToUtc) {
                Ok(there) => {
                    single += 1;
                    assert!(there.utc.check_valid());
                    assert_eq!(there.local, local);
                    let back = convert(there.utc, Direction::UtcToLocal).unwrap();
                    assert_eq!(back.local, local);
                    assert_eq!(back.utc, there.utc);
                    assert_eq!(back.abbreviation, there.abbreviation);
                }
                Err(ConversionError::NonExistentLocalTime) => skipped += 1,
                Err(ConversionError::AmbiguousLocalTime) => repeated += 1,
            }
        }
    }
    assert!(single > 200_000);
    assert_eq!(skipped, 16);
    assert_eq!(repeated, 16);
}

#[test]
fn brisbane_is_ten_hours_ahead_since_1992() {
    for local in sweep(2024, 2026) {
        let there = convert(local, Direction::LocalToUtc).unwrap();
        assert_eq!(there.abbreviation, "AEST");
        let minutes = |t: &NaiveDateTime| (t.day * 24 + t.hour) * 60 + t.minute;
        if there.utc.month == local.month {
            assert_eq!(minutes(&local) - minutes(&there.utc), 600);
        } else {
            assert!(local.day == 1 && local.hour < 10);
            assert_eq!(there.utc.hour, local.hour + 14);
        }
    }
}
