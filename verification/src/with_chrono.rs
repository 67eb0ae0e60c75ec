//! Expiry stamps for the stores that keep `chrono`'s dates in their tables.

use crate::offset_date_time::instant_nanos;
use crate::offset_date_time::instant_seconds;
use time::OffsetDateTime;
use vstd::prelude::*;

verus! {

/// The first second that `chrono` has a UTC date for: the one that opens
/// 1 January of the year -262143.
pub const MIN_TIMESTAMP: i64 = -8_334_601_228_800;

/// The last second that `chrono` has a UTC date for: the one that closes
/// 31 December of the year 262142.
pub const MAX_TIMESTAMP: i64 = 8_210_266_876_799;

/// Whether `chrono` has a UTC date for a count of seconds since 1970 and of
/// nanoseconds past that second: the second lies within the years that
/// `chrono` covers, and the nanoseconds stay below one thousand million, or
/// below two where the second is the last of a minute and so may be followed
/// by a leap second.
pub open spec fn representable(seconds: i64, nanos: u32) -> bool {
    &&& MIN_TIMESTAMP <= seconds <= MAX_TIMESTAMP
    &&& (nanos < 1_000_000_000 || (nanos < 2_000_000_000 && seconds % 60 == 59))
}

/// Calls `chrono::DateTime::<Utc>::from_timestamp` and reads the date it
/// gives with `timestamp` and `timestamp_subsec_nanos`. `chrono` gives a
/// date exactly for the counts it can hold, and documents that the two
/// readings then give the counts back.
#[verifier::external_body]
fn chrono_from_timestamp(seconds: i64, nanos: u32) -> (parts: Option<(i64, u32)>)
    ensures
        parts is Some <==> representable(seconds, nanos),
        parts matches Some(p) ==> p.0 == seconds && p.1 == nanos,
{
    match chrono::DateTime::from_timestamp(seconds, nanos) {
        Some(date) => Some((date.timestamp(), date.timestamp_subsec_nanos())),
        None => None,
    }
}

/// Calls `chrono::Utc::now`, which reads the system clock, and reads the
/// date it gives with `timestamp` and `timestamp_subsec_nanos`. Of a
/// reading only this is claimed: it is a date that `chrono` holds, and one
/// that lies in no leap second, since `chrono` builds it from a clock's
/// whole seconds and the fraction past them. Where the clock stands before
/// 1970, `chrono` stops the program instead.
#[verifier::external_body]
fn chrono_now() -> (parts: (i64, u32))
    ensures
        representable(parts.0, parts.1),
        parts.1 < 1_000_000_000,
{
    let now = chrono::Utc::now();
    (now.timestamp(), now.timestamp_subsec_nanos())
}

/// An instant that `chrono` can hold as a `DateTime<Utc>`, told by the two
/// counts from which `chrono` builds that date.
#[derive(Clone, Copy, Debug, PartialEq, Eq, Structural)]
pub struct UtcDate {
    seconds: i64,
    nanos: u32,
}

impl UtcDate {
    #[verifier::type_invariant]
    spec fn is_chrono_date(self) -> bool {
        representable(self.seconds, self.nanos)
    }

    /// The whole non-leap seconds between 1970-01-01 00:00:00 UTC and the
    /// date.
    pub closed spec fn spec_timestamp(&self) -> i64 {
        self.seconds
    }

    /// The nanoseconds past the last whole non-leap second.
    pub closed spec fn spec_timestamp_subsec_nanos(&self) -> u32 {
        self.nanos
    }

    /// The whole non-leap seconds between 1970-01-01 00:00:00 UTC and the
    /// date.
    #[verifier::when_used_as_spec(spec_timestamp)]
    pub fn timestamp(&self) -> (seconds: i64)
        ensures
            seconds == self.spec_timestamp(),
            MIN_TIMESTAMP <= seconds <= MAX_TIMESTAMP,
    {
        proof {
            use_type_invariant(self);
        }
        self.seconds
    }

    /// The nanoseconds past the last whole non-leap second. They reach one
    /// thousand million and more only within a leap second.
    #[verifier::when_used_as_spec(spec_timestamp_subsec_nanos)]
    pub fn timestamp_subsec_nanos(&self) -> (nanos: u32)
        ensures
            nanos == self.spec_timestamp_subsec_nanos(),
            representable(self.spec_timestamp(), nanos),
    {
        proof {
            use_type_invariant(self);
        }
        self.nanos
    }

    /// The date that lies `seconds` after 1970-01-01 00:00:00 UTC and
    /// `nanos` nanoseconds further, where `chrono` has one.
    pub fn from_timestamp(seconds: i64, nanos: u32) -> (date: Option<UtcDate>)
        ensures
            date is Some <==> representable(seconds, nanos),
            date matches Some(d) ==> d.timestamp() == seconds && d.timestamp_subsec_nanos()
                == nanos,
    {
        match chrono_from_timestamp(seconds, nanos) {
            Some(parts) => Some(UtcDate { seconds: parts.0, nanos: parts.1 }),
            None => None,
        }
    }

    /// A date is told by its two counts: dates that agree in both are the
    /// same date.
    pub proof fn lemma_counts_tell_the_date(self, other: UtcDate)
        requires
            self.timestamp() == other.timestamp(),
            self.timestamp_subsec_nanos() == other.timestamp_subsec_nanos(),
        ensures
            self == other,
    {
    }
}

/// The present instant as the system clock tells it: a date that lies in
/// no leap second, as a clock counts none.
pub fn current_time() -> (now: UtcDate)
    ensures
        now.timestamp_subsec_nanos() < 1_000_000_000,
{
    let parts = chrono_now();
    UtcDate { seconds: parts.0, nanos: parts.1 }
}

/// The expiry as a `chrono` date, or `fallback` where `chrono` has no date
/// for it. An expiry lies in no leap second, as `time` counts none, so what
/// is stored lies in one only where it is a fallback that does.
pub fn convert_expiry_date_or(expiry_date: OffsetDateTime, fallback: UtcDate) -> (stored: UtcDate)
    ensures
        representable(instant_seconds(expiry_date), instant_nanos(expiry_date)) ==> {
            &&& stored.timestamp() == instant_seconds(expiry_date)
            &&& stored.timestamp_subsec_nanos() == instant_nanos(expiry_date)
        },
        !representable(instant_seconds(expiry_date), instant_nanos(expiry_date)) ==> stored
            == fallback,
        fallback.timestamp_subsec_nanos() < 1_000_000_000 ==> stored.timestamp_subsec_nanos()
            < 1_000_000_000,
{
    UtcDate::from_timestamp(expiry_date.unix_timestamp(), expiry_date.nanosecond()).unwrap_or(
        fallback,
    )
}

/// The expiry in the form the store writes: the same instant as a `chrono`
/// date. An expiry for which `chrono` has no date is replaced by the present
/// instant, so that the session counts as expired from now on. Either way
/// what is stored lies in no leap second.
pub fn convert_expiry_date(expiry_date: OffsetDateTime) -> (stored: UtcDate)
    ensures
        representable(instant_seconds(expiry_date), instant_nanos(expiry_date)) ==> {
            &&& stored.timestamp() == instant_seconds(expiry_date)
            &&& stored.timestamp_subsec_nanos() == instant_nanos(expiry_date)
        },
        stored.timestamp_subsec_nanos() < 1_000_000_000,
{
    convert_expiry_date_or(expiry_date, current_time())
}

} // verus!
