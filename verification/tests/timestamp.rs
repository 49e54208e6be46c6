use tasklist::timestamp::{Timestamp, MAX_YEAR, MIN_YEAR};

#[test]
fn new_keeps_the_numbers() {
    let stamp = Timestamp::new(2024, 2, 1, 10, 30, 59, 123_456_789, -18_000).unwrap();
    assert_eq!(stamp.year(), 2024);
    assert_eq!(stamp.month(), 2);
    assert_eq!(stamp.day(), 1);
    assert_eq!(stamp.hour(), 10);
    assert_eq!(stamp.minute(), 30);
    assert_eq!(stamp.second(), 59);
    assert_eq!(stamp.nanosecond(), 123_456_789);
    assert_eq!(stamp.offset(), -18_000);
}

#[test]
fn new_knows_the_lengths_of_the_months() {
    let lengths = [31, 28, 31, 30, 31, 30, 31, 31, 30, 31, 30, 31];
    for (i, length) in lengths.iter().enumerate() {
        let month = i as u32 + 1;
        assert!(Timestamp::new(2023, month, *length, 0, 0, 0, 0, 0).is_some());
        assert!(Timestamp::new(2023, month, *length + 1, 0, 0, 0, 0, 0).is_none());
        assert!(Timestamp::new(2023, month, 0, 0, 0, 0, 0, 0).is_none());
    }
}

#[test]
fn new_knows_leap_years() {
    assert!(Timestamp::new(2024, 2, 29, 0, 0, 0, 0, 0).is_some());
    assert!(Timestamp::new(2024, 2, 30, 0, 0, 0, 0, 0).is_none());
    assert!(Timestamp::new(2023, 2, 29, 0, 0, 0, 0, 0).is_none());
    assert!(Timestamp::new(2000, 2, 29, 0, 0, 0, 0, 0).is_some());
    assert!(Timestamp::new(1900, 2, 29, 0, 0, 0, 0, 0).is_none());
    assert!(Timestamp::new(2100, 2, 29, 0, 0, 0, 0, 0).is_none());
    assert!(Timestamp::new(0, 2, 29, 0, 0, 0, 0, 0).is_some());
    assert!(Timestamp::new(-4, 2, 29, 0, 0, 0, 0, 0).is_some());
    assert!(Timestamp::new(-1, 2, 29, 0, 0, 0, 0, 0).is_none());
    assert!(Timestamp::new(-100, 2, 29, 0, 0, 0, 0, 0).is_none());
    assert!(Timestamp::new(-400, 2, 29, 0, 0, 0, 0, 0).is_some());
}

#[test]
fn new_refuses_months_that_do_not_exist() {
    assert!(Timestamp::new(2024, 0, 1, 0, 0, 0, 0, 0).is_none());
    assert!(Timestamp::new(2024, 13, 1, 0, 0, 0, 0, 0).is_none());
    assert!(Timestamp::new(2024, u32::MAX, 1, 0, 0, 0, 0, 0).is_none());
}

#[test]
fn new_bounds_the_year() {
    assert_eq!(MIN_YEAR, -262_143);
    assert_eq!(MAX_YEAR, 262_142);
    assert!(Timestamp::new(MIN_YEAR, 1, 1, 0, 0, 0, 0, 0).is_some());
    assert!(Timestamp::new(MIN_YEAR - 1, 12, 31, 0, 0, 0, 0, 0).is_none());
    assert!(Timestamp::new(MAX_YEAR, 12, 31, 23, 59, 59, 999_999_999, 0).is_some());
    assert!(Timestamp::new(MAX_YEAR + 1, 1, 1, 0, 0, 0, 0, 0).is_none());
    assert!(Timestamp::new(i32::MAX, 1, 1, 0, 0, 0, 0, 0).is_none());
    assert!(Timestamp::new(i32::MIN, 1, 1, 0, 0, 0, 0, 0).is_none());
}

#[test]
fn new_bounds_the_time_of_day() {
    assert!(Timestamp::new(2024, 1, 1, 23, 59, 59, 999_999_999, 0).is_some());
    assert!(Timestamp::new(2024, 1, 1, 24, 0, 0, 0, 0).is_none());
    assert!(Timestamp::new(2024, 1, 1, 0, 60, 0, 0, 0).is_none());
    assert!(Timestamp::new(2024, 1, 1, 0, 0, 60, 0, 0).is_none());
}

#[test]
fn new_takes_a_leap_second_only_after_second_59() {
    assert!(Timestamp::new(2016, 12, 31, 23, 59, 59, 1_000_000_000, 0).is_some());
    assert!(Timestamp::new(2016, 12, 31, 23, 59, 59, 1_999_999_999, 0).is_some());
    assert!(Timestamp::new(2016, 12, 31, 23, 59, 59, 2_000_000_000, 0).is_none());
    assert!(Timestamp::new(2016, 12, 31, 23, 59, 58, 1_000_000_000, 0).is_none());
    assert!(Timestamp::new(2016, 12, 31, 23, 59, 0, 1_000_000_000, 0).is_none());
}

#[test]
fn new_bounds_the_offset() {
    assert!(Timestamp::new(2024, 1, 1, 0, 0, 0, 0, 86_399).is_some());
    assert!(Timestamp::new(2024, 1, 1, 0, 0, 0, 0, -86_399).is_some());
    assert!(Timestamp::new(2024, 1, 1, 0, 0, 0, 0, 86_400).is_none());
    assert!(Timestamp::new(2024, 1, 1, 0, 0, 0, 0, -86_400).is_none());
}

#[test]
fn a_timestamp_made_of_the_numbers_of_another_is_the_same() {
    let stamp = Timestamp::new(1999, 12, 31, 23, 59, 59, 1_500_000_000, 3_600).unwrap();
    let again = Timestamp::new(
        stamp.year(),
        stamp.month(),
        stamp.day(),
        stamp.hour(),
        stamp.minute(),
        stamp.second(),
        stamp.nanosecond(),
        stamp.offset(),
    );
    assert_eq!(again, Some(stamp));
}

#[test]
fn text_pads_day_month_hour_and_minute() {
    let stamp = Timestamp::new(2024, 2, 1, 9, 5, 0, 0, 3600).unwrap();
    assert_eq!(stamp.text(), "01/02/2024 09:05");
    let stamp = Timestamp::new(2024, 12, 31, 23, 59, 59, 999_999_999, -3600).unwrap();
    assert_eq!(stamp.text(), "31/12/2024 23:59");
    let stamp = Timestamp::new(2024, 10, 10, 10, 10, 10, 0, 0).unwrap();
    assert_eq!(stamp.text(), "10/10/2024 10:10");
}

#[test]
fn text_leaves_out_seconds_and_offset() {
    let early = Timestamp::new(2024, 2, 1, 9, 5, 0, 0, 0).unwrap();
    let late = Timestamp::new(2024, 2, 1, 9, 5, 59, 1_999_999_999, 86_399).unwrap();
    assert_eq!(early.text(), late.text());
}

#[test]
fn text_of_years_outside_four_digits_carries_a_sign() {
    let text = |year: i32| Timestamp::new(year, 1, 1, 0, 0, 0, 0, 0).unwrap().text();
    assert_eq!(text(0), "01/01/0000 00:00");
    assert_eq!(text(7), "01/01/0007 00:00");
    assert_eq!(text(42), "01/01/0042 00:00");
    assert_eq!(text(999), "01/01/0999 00:00");
    assert_eq!(text(1000), "01/01/1000 00:00");
    assert_eq!(text(9999), "01/01/9999 00:00");
    assert_eq!(text(10000), "01/01/+10000 00:00");
    assert_eq!(text(262142), "01/01/+262142 00:00");
    assert_eq!(text(-1), "01/01/-0001 00:00");
    assert_eq!(text(-42), "01/01/-0042 00:00");
    assert_eq!(text(-9999), "01/01/-9999 00:00");
    assert_eq!(text(-10000), "01/01/-10000 00:00");
    assert_eq!(text(-262143), "01/01/-262143 00:00");
}

#[test]
fn now_shows_a_moment_that_exists() {
    let now = Timestamp::now().unwrap();
    assert!(now.year() >= 2024);
    assert!((1..=12).contains(&now.month()));
    assert!((1..=31).contains(&now.day()));
    assert!(now.hour() < 24);
    assert!(now.minute() < 60);
    assert!(now.second() < 60);
    assert!(now.offset().abs() < 86_400);
    assert_eq!(now.text().chars().count(), 16);
}
