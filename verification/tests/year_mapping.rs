use utc_time::{fix_two_digit_year, map_two_digit_year, NaiveDateTime};

#[test]
fn years_up_to_68_belong_to_this_century() {
    assert_eq!(map_two_digit_year(0), 2000);
    assert_eq!(map_two_digit_year(1), 2001);
    assert_eq!(map_two_digit_year(25), 2025);
    assert_eq!(map_two_digit_year(68), 2068);
}

#[test]
fn years_from_69_belong_to_the_last_century() {
    assert_eq!(map_two_digit_year(69), 1969);
    assert_eq!(map_two_digit_year(70), 1970);
    assert_eq!(map_two_digit_year(99), 1999);
}

#[test]
fn other_years_pass_through() {
    assert_eq!(map_two_digit_year(100), 100);
    assert_eq!(map_two_digit_year(1969), 1969);
    assert_eq!(map_two_digit_year(2025), 2025);
    assert_eq!(map_two_digit_year(-1), -1);
    assert_eq!(map_two_digit_year(-68), -68);
    assert_eq!(map_two_digit_year(i32::MAX), i32::MAX);
    assert_eq!(map_two_digit_year(i32::MIN), i32::MIN);
}

#[test]
fn every_two_digit_year_keeps_its_last_two_digits() {
    for y in 0..100 {
        let mapped = map_two_digit_year(y);
        assert_eq!(mapped % 100, y);
        assert!((1969..=2068).contains(&mapped));
    }
}

#[test]
fn fixing_keeps_month_day_and_time() {
    let written = NaiveDateTime::new(25, 9, 22, 21, 0, 0).unwrap();
    let fixed = fix_two_digit_year(written);
    assert_eq!(fixed, NaiveDateTime::new(2025, 9, 22, 21, 0, 0).unwrap());
    let written = NaiveDateTime::new(69, 12, 31, 23, 59, 7).unwrap();
    let fixed = fix_two_digit_year(written);
    assert_eq!(fixed, NaiveDateTime::new(1969, 12, 31, 23, 59, 7).unwrap());
}

#[test]
fn fixing_leaves_four_digit_years_alone() {
    let written = NaiveDateTime::new(2025, 9, 22, 21, 0, 0).unwrap();
    assert_eq!(fix_two_digit_year(written), written);
    let written = NaiveDateTime::new(100, 1, 1, 0, 0, 0).unwrap();
    assert_eq!(fix_two_digit_year(written), written);
}

#[test]
fn fixing_keeps_the_29th_of_february() {
    for y in 0..100 {
        if let Some(written) = NaiveDateTime::new(y, 2, 29, 12, 0, 0) {
            let fixed = fix_two_digit_year(written);
            assert!(fixed.check_valid());
            assert_eq!(fixed.day, 29);
            assert_eq!(fixed.month, 2);
        } else {
            let mapped = map_two_digit_year(y);
            assert_eq!(NaiveDateTime::new(mapped, 2, 29, 12, 0, 0), None);
        }
    }
}
