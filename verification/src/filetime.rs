//! Conversion of Windows file times to ISO-8601 text.
//!
//! A file time counts intervals of 100 nanoseconds since 1601-01-01 00:00 UTC.

use crate::text::{or_empty, text_or_empty, text_view};
use vstd::prelude::*;

verus! {

/// Seconds between 1601-01-01 and 1970-01-01.
pub const WINDOWS_TO_UNIX_EPOCH_SECS: i64 = 11_644_473_600;

/// File-time intervals in one second.
pub const FILETIME_UNITS_PER_SEC: u64 = 10_000_000;

/// The RFC 3339 text of the UTC instant `secs` seconds and `nanos`
/// nanoseconds after 1970-01-01 00:00, as `chrono` writes it; `None` where
/// `chrono` has no such instant.
pub uninterp spec fn utc_rfc3339(secs: int, nanos: int) -> Option<Seq<char>>;

/// Whole seconds since the Unix epoch at the given file time.
pub open spec fn unix_seconds(filetime: u64) -> int {
    filetime / FILETIME_UNITS_PER_SEC - WINDOWS_TO_UNIX_EPOCH_SECS
}

/// Nanoseconds past the whole second at the given file time.
pub open spec fn subsec_nanos(filetime: u64) -> int {
    (filetime % FILETIME_UNITS_PER_SEC) * 100
}

/// `chrono::Utc.timestamp_opt(secs, nanos).single()`, written out with
/// `DateTime::to_rfc3339`. The outcome depends on the two numbers alone.
#[verifier::external_body]
fn format_utc_timestamp(secs: i64, nanos: u32) -> (res: Option<String>)
    ensures
        text_view(res) == utc_rfc3339(secs as int, nanos as int),
{
    chrono::TimeZone::timestamp_opt(&chrono::Utc, secs, nanos).single().map(|t| t.to_rfc3339())
}

/// Splits a file time into seconds since the Unix epoch and nanoseconds.
pub fn filetime_parts(filetime: u64) -> (parts: (i64, u32))
    ensures
        parts.0 == unix_seconds(filetime),
        parts.1 == subsec_nanos(filetime),
        parts.1 < 1_000_000_000,
{
    let seconds: i64 = (filetime / FILETIME_UNITS_PER_SEC) as i64;
    let nanos: u32 = ((filetime % FILETIME_UNITS_PER_SEC) * 100) as u32;
    (seconds - WINDOWS_TO_UNIX_EPOCH_SECS, nanos)
}

/// The text shown for a formatted instant: the text itself, or the empty
/// string where the instant could not be formatted.
pub fn timestamp_text(formatted: Option<String>) -> (res: String)
    ensures
        res@ == or_empty(text_view(formatted)),
{
    text_or_empty(formatted)
}

/// The ISO-8601 text of a file time in UTC; empty where the instant is out
/// of the calendar's range.
pub fn filetime_to_datetime(filetime: u64) -> (res: String)
    ensures
        res@ == or_empty(utc_rfc3339(unix_seconds(filetime), subsec_nanos(filetime))),
{
    let (secs, nanos) = filetime_parts(filetime);
    timestamp_text(format_utc_timestamp(secs, nanos))
}

} // verus!
