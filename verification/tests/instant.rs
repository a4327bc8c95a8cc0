use chrono::{DateTime, Utc};
use terminal_tube::instant::{
    check_lifetime, expires_at, later, read_rfc3339, UtcInstant, MAX_SECONDS, MAX_SPAN_SECONDS,
    MIN_SECONDS,
};

fn at(seconds: i64, nanos: u32) -> UtcInstant {
    UtcInstant { seconds, nanos }
}

#[test]
fn the_bounds_are_those_of_chrono() {
    assert_eq!(DateTime::<Utc>::MIN_UTC.timestamp(), MIN_SECONDS);
    assert_eq!(DateTime::<Utc>::MAX_UTC.timestamp(), MAX_SECONDS);
    assert_eq!(chrono::TimeDelta::MAX.num_seconds() as u64, MAX_SPAN_SECONDS);
    let longest = std::time::Duration::from_secs(MAX_SPAN_SECONDS);
    assert!(chrono::TimeDelta::from_std(longest).is_ok());
    let longer = std::time::Duration::from_secs(MAX_SPAN_SECONDS + 1);
    assert!(chrono::TimeDelta::from_std(longer).is_err());
}

#[test]
fn a_lifetime_ends_its_seconds_from_now() {
    assert_eq!(expires_at(at(1000, 5), Some(3599)), Some(at(4599, 5)));
    assert_eq!(expires_at(at(-10, 999999999), Some(0)), Some(at(-10, 999999999)));
    assert_eq!(expires_at(at(1000, 5), None), None);
    assert_eq!(expires_at(at(MAX_SECONDS - 1, 7), Some(1)), Some(at(MAX_SECONDS, 7)));
    assert_eq!(expires_at(at(MIN_SECONDS, 0), Some(60)), Some(at(MIN_SECONDS + 60, 0)));
}

#[test]
fn too_long_a_lifetime_counts_for_nothing() {
    assert_eq!(expires_at(at(1000, 5), Some(u64::MAX)), Some(at(1000, 5)));
    assert_eq!(expires_at(at(1000, 5), Some(MAX_SPAN_SECONDS + 1)), Some(at(1000, 5)));
}

#[test]
fn lifetimes_are_checked() {
    assert!(check_lifetime(&at(1000, 0), Some(3600)));
    assert!(check_lifetime(&at(1000, 0), None));
    assert!(check_lifetime(&at(1000, 0), Some(u64::MAX)));
    assert!(!check_lifetime(&at(1000, 0), Some(MAX_SPAN_SECONDS)));
    assert!(!check_lifetime(&at(MAX_SECONDS, 0), Some(1)));
    assert!(check_lifetime(&at(MAX_SECONDS, 0), Some(0)));
}

#[test]
fn later_moments() {
    assert_eq!(later(at(1700000000, 1), 60), at(1700000060, 1));
    assert_eq!(later(at(-30, 2), 60), at(30, 2));
}

#[test]
fn moments_are_ordered() {
    assert!(at(1, 0).is_no_later_than(&at(1, 0)));
    assert!(at(1, 5).is_no_later_than(&at(2, 0)));
    assert!(!at(1, 5).is_no_later_than(&at(1, 4)));
    assert!(!at(2, 0).is_no_later_than(&at(1, 999999999)));
    let a = DateTime::<Utc>::from_timestamp(59, 1500000000).unwrap();
    let b = DateTime::<Utc>::from_timestamp(60, 0).unwrap();
    assert_eq!(a <= b, at(59, 1500000000).is_no_later_than(&at(60, 0)));
}

#[test]
fn rfc3339_texts_are_read() {
    assert_eq!(read_rfc3339("1970-01-01T00:00:00Z"), Some(at(0, 0)));
    assert_eq!(read_rfc3339("2024-05-01T12:00:00.25Z"), Some(at(1714564800, 250000000)));
    assert_eq!(read_rfc3339("2024-05-01T12:00:00+02:00"), Some(at(1714557600, 0)));
    assert_eq!(read_rfc3339("2016-12-31T23:59:60Z"), Some(at(1483228799, 1000000000)));
    assert_eq!(read_rfc3339("2024-05-01"), None);
    assert_eq!(read_rfc3339("soon"), None);
    assert_eq!(read_rfc3339(""), None);
}
