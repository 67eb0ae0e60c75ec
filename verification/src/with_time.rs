//! Expiry stamps for the stores that keep `time`'s dates in their tables.

use crate::offset_date_time::instant_offset;
use crate::offset_date_time::offset_seconds;
use time::OffsetDateTime;
use vstd::prelude::*;

verus! {

/// The present instant as the system clock tells it, told in UTC whatever
/// the machine's own time zone is.
pub fn current_time() -> (now: OffsetDateTime)
    ensures
        offset_seconds(instant_offset(now)) == 0,
{
    OffsetDateTime::now_utc()
}

/// The expiry in the form the store writes. The session layer already speaks
/// in `time`'s dates, so the expiry is handed on as it is.
pub fn convert_expiry_date(expiry_date: OffsetDateTime) -> (stored: OffsetDateTime)
    ensures
        stored == expiry_date,
{
    expiry_date
}

} // verus!
