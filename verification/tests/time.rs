use chrono::{TimeZone, Utc};
use weather::time::{distance, instant, instant_opt, FIRST_SECOND, LAST_SECOND};

#[test]
fn instants_are_the_seconds_with_a_calendar_date() {
    assert_eq!(instant(0), Some(0));
    assert_eq!(instant(1_683_000_000), Some(1_683_000_000));
    assert_eq!(instant(-1), Some(-1));
    assert_eq!(instant(FIRST_SECOND), Some(FIRST_SECOND));
    assert_eq!(instant(FIRST_SECOND - 1), None);
    assert_eq!(instant(LAST_SECOND), Some(LAST_SECOND));
    assert_eq!(instant(LAST_SECOND + 1), None);
    assert_eq!(instant(i64::MAX), None);
    assert_eq!(instant(i64::MIN), None);
    assert_eq!(instant_opt(None), None);
    assert_eq!(instant_opt(Some(5)), Some(5));
    assert_eq!(instant_opt(Some(i64::MAX)), None);
}

#[test]
fn the_first_and_last_second_are_those_of_the_calendar() {
    let first = Utc.timestamp_opt(FIRST_SECOND, 0).single().unwrap();
    assert_eq!(first.to_rfc3339(), "-262143-01-01T00:00:00+00:00");
    let last = Utc.timestamp_opt(LAST_SECOND, 0).single().unwrap();
    assert_eq!(last.to_rfc3339(), "+262142-12-31T23:59:59+00:00");
    assert!(Utc.timestamp_opt(FIRST_SECOND - 1, 0).single().is_none());
    assert!(Utc.timestamp_opt(LAST_SECOND + 1, 0).single().is_none());
}

#[test]
fn distance_is_the_absolute_difference() {
    assert_eq!(distance(100, 40), 60);
    assert_eq!(distance(40, 100), 60);
    assert_eq!(distance(-5, 5), 10);
    assert_eq!(distance(7, 7), 0);
    assert_eq!(distance(i64::MAX, i64::MIN), u64::MAX);
    assert_eq!(distance(i64::MIN, i64::MAX), u64::MAX);
}
