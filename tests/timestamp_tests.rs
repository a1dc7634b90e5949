use rust_admin::timestamp::{Timestamp, MAX_SECONDS, MIN_SECONDS};

#[test]
fn should_create_timestamp_from_now() {
    let ts = Timestamp::now();
    assert!(ts.seconds() <= chrono::Utc::now().timestamp());
}

#[test]
fn should_add_duration() {
    let ts = Timestamp::now();
    let future = ts.add_hours(1);
    assert!(future.is_after(&ts));
    assert_eq!(future.seconds_since(&ts), 3600);
}

#[test]
fn should_parse_iso_string() {
    let iso = "2023-12-25T10:30:00Z";
    let ts = Timestamp::from_iso_string(iso).unwrap();
    assert_eq!(ts.to_iso_string(), "2023-12-25T10:30:00+00:00");
}

#[test]
fn should_compare_timestamps() {
    let ts1 = Timestamp::now();
    let ts2 = ts1.add_minutes(1);

    assert!(ts2.is_after(&ts1));
    assert!(ts1.is_before(&ts2));
}

#[test]
fn iso_string_with_offset_reads_the_utc_instant() {
    let ts = Timestamp::from_iso_string("2023-12-25T12:30:00+02:00").unwrap();
    assert_eq!(ts.seconds(), 1_703_500_200);
    assert!(Timestamp::from_iso_string("yesterday").is_err());
}

#[test]
fn representable_range_matches_chrono() {
    assert_eq!(chrono::DateTime::<chrono::Utc>::MIN_UTC.timestamp(), MIN_SECONDS);
    assert_eq!(chrono::DateTime::<chrono::Utc>::MAX_UTC.timestamp(), MAX_SECONDS);
    assert!(Timestamp::from_seconds(MAX_SECONDS).is_some());
    assert!(Timestamp::from_seconds(MAX_SECONDS + 1).is_none());
    assert!(Timestamp::from_seconds(MIN_SECONDS - 1).is_none());
    let far = Timestamp::from_seconds(MAX_SECONDS).unwrap();
    assert!(!far.to_iso_string().is_empty());
    let early = Timestamp::from_seconds(MIN_SECONDS).unwrap();
    assert!(!early.to_iso_string().is_empty());
}

#[test]
fn days_and_seconds() {
    let ts = Timestamp::from_seconds(0).unwrap();
    assert_eq!(ts.add_days(2).seconds(), 172_800);
    assert_eq!(ts.add_seconds(-5).seconds(), -5);
    assert!(Timestamp::from_seconds(1).unwrap().is_expired());
}
