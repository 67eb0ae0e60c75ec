//! `time`'s `OffsetDateTime`, the form in which the session layer hands an
//! expiry to a store, as far as the stores look into it.

use vstd::prelude::*;

verus! {

/// `time::OffsetDateTime`, an instant together with the offset from UTC in
/// which it is told.
#[verifier::external_type_specification]
#[verifier::external_body]
pub struct ExOffsetDateTime(time::OffsetDateTime);

/// `time::UtcOffset`, how far a local time stands from UTC.
#[verifier::external_type_specification]
#[verifier::external_body]
pub struct ExUtcOffset(time::UtcOffset);

/// What `OffsetDateTime::offset` gives for an instant: the offset in which
/// the instant is told.
pub uninterp spec fn instant_offset(instant: time::OffsetDateTime) -> time::UtcOffset;

/// What `UtcOffset::whole_seconds` gives for an offset: the seconds that it
/// lies east of UTC, which are none for UTC itself.
pub uninterp spec fn offset_seconds(offset: time::UtcOffset) -> i32;

/// What `OffsetDateTime::unix_timestamp` gives for an instant: the whole
/// seconds between 1970-01-01 00:00:00 UTC and the instant.
pub uninterp spec fn instant_seconds(instant: time::OffsetDateTime) -> i64;

/// What `OffsetDateTime::nanosecond` gives for an instant: the nanoseconds
/// that the instant lies past the start of its second.
pub uninterp spec fn instant_nanos(instant: time::OffsetDateTime) -> u32;

/// `OffsetDateTime::now_utc` reads the system clock. Of a reading only this
/// is claimed, which `time` documents: it is told in UTC. Where the clock
/// stands outside the years that `time` covers, `time` stops the program
/// instead.
pub assume_specification[ time::OffsetDateTime::now_utc ]() -> (now: time::OffsetDateTime)
    ensures
        offset_seconds(instant_offset(now)) == 0,
;

/// `OffsetDateTime::offset` hands out the offset that the value holds.
pub assume_specification[ time::OffsetDateTime::offset ](instant: time::OffsetDateTime) -> (offset:
    time::UtcOffset)
    ensures
        offset == instant_offset(instant),
;

/// `UtcOffset::whole_seconds` adds up the hours, minutes and seconds that
/// the offset holds, and reads nothing else.
pub assume_specification[ time::UtcOffset::whole_seconds ](offset: time::UtcOffset) -> (seconds:
    i32)
    ensures
        seconds == offset_seconds(offset),
;

/// `OffsetDateTime::unix_timestamp` counts from the date, the time of day and
/// the offset that the value holds, and from nothing else.
pub assume_specification[ time::OffsetDateTime::unix_timestamp ](
    instant: time::OffsetDateTime,
) -> (seconds: i64)
    ensures
        seconds == instant_seconds(instant),
;

/// `OffsetDateTime::nanosecond` reads the value's time of day; `time`
/// documents that it lies below one thousand million.
pub assume_specification[ time::OffsetDateTime::nanosecond ](
    instant: time::OffsetDateTime,
) -> (nanos: u32)
    ensures
        nanos == instant_nanos(instant),
        nanos < 1_000_000_000,
;

} // verus!
