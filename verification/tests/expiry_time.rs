use sqlx_store::with_time::convert_expiry_date;
use sqlx_store::with_time::current_time;
use time::OffsetDateTime;
use time::UtcOffset;

#[test]
fn time_expiry_is_handed_on_unchanged() {
    let expiry = OffsetDateTime::from_unix_timestamp(1_431_648_000)
        .unwrap()
        .replace_nanosecond(123_456_789)
        .unwrap();
    let stored = convert_expiry_date(expiry);
    assert_eq!(stored, expiry);
    assert_eq!(stored.unix_timestamp(), 1_431_648_000);
    assert_eq!(stored.nanosecond(), 123_456_789);
}

#[test]
fn time_expiry_keeps_its_offset() {
    let offset = UtcOffset::from_hms(5, 30, 0).unwrap();
    let expiry = OffsetDateTime::UNIX_EPOCH.to_offset(offset);
    let stored = convert_expiry_date(expiry);
    assert_eq!(stored.offset(), offset);
    assert_eq!(stored.hour(), 5);
    assert_eq!(stored.minute(), 30);
    assert_eq!(stored.unix_timestamp(), 0);
}

#[test]
fn time_expiry_at_the_ends_of_the_default_range() {
    let first = OffsetDateTime::from_unix_timestamp(-377_705_116_800).unwrap();
    let last = OffsetDateTime::from_unix_timestamp(253_402_300_799).unwrap();
    assert_eq!(convert_expiry_date(first), first);
    assert_eq!(convert_expiry_date(last), last);
}

#[test]
fn time_current_time_is_told_in_utc() {
    let now = current_time();
    assert_eq!(now.offset(), UtcOffset::UTC);
    assert_eq!(now.offset().whole_seconds(), 0);
}

#[test]
fn time_current_time_lies_between_two_readings_of_the_clock() {
    let before = OffsetDateTime::now_utc();
    let now = current_time();
    let after = OffsetDateTime::now_utc();
    assert!(before <= now);
    assert!(now <= after);
}
