use vstd::prelude::*;

use chrono::{Datelike, Timelike};

verus! {

/// The last millisecond of year 9999 UTC; every timestamp the library
/// handles lies between the epoch and this bound.
pub const MAX_TIMESTAMP_MILLIS: i64 = 253402300799999;

/// Milliseconds in one day.
pub const DAY_MILLIS: i64 = 86400000;

/// Whether `millis` is a timestamp the library accepts: at or after the
/// epoch and within year 9999.
pub open spec fn ts_in_range(millis: int) -> bool {
    0 <= millis <= MAX_TIMESTAMP_MILLIS
}

/// The RFC 3339 rendering of an epoch-millisecond instant in UTC.
pub uninterp spec fn rfc3339_of(millis: i64) -> Seq<char>;

/// The instant an RFC 3339 string denotes, in epoch milliseconds, or
/// `None` where the string is not a valid RFC 3339 date-time.
pub uninterp spec fn rfc3339_millis_of(s: Seq<char>) -> Option<i64>;

/// The UTC calendar year and month (1 to 12) of an epoch-millisecond instant.
pub uninterp spec fn year_month_of(millis: i64) -> (i32, u32);

/// Relies on chrono's `Utc::now` and `DateTime::timestamp_millis`: the
/// current instant as epoch milliseconds. Nothing is promised of a clock.
#[verifier::external_body]
pub fn now_millis() -> i64 {
    chrono::Utc::now().timestamp_millis()
}

/// Relies on chrono's `DateTime::<Utc>::from_timestamp_millis` (in range for
/// every timestamp the library accepts) and `DateTime::to_rfc3339`, whose
/// output depends on the instant alone, and which `parse_from_rfc3339`
/// together with `timestamp_millis` reads back to the same instant.
#[verifier::external_body]
pub fn format_rfc3339(millis: i64) -> (r: String)
    requires
        ts_in_range(millis as int),
    ensures
        r@ == rfc3339_of(millis),
        rfc3339_millis_of(r@) == Some(millis),
{
    chrono::DateTime::<chrono::Utc>::from_timestamp_millis(millis).unwrap().to_rfc3339()
}

/// Relies on chrono's `DateTime::parse_from_rfc3339` and
/// `DateTime::timestamp_millis`: the parsed instant depends on the text alone.
#[verifier::external_body]
pub fn parse_rfc3339(s: &str) -> (r: Option<i64>)
    ensures
        r == rfc3339_millis_of(s@),
{
    chrono::DateTime::parse_from_rfc3339(s).ok().map(|dt| dt.timestamp_millis())
}

/// Relies on chrono's `Timelike::hour`, documented to return 0 to 23, taken
/// in the machine's local time zone, which no value of the arguments pins down.
#[verifier::external_body]
pub fn local_hour_of(millis: i64) -> (r: u32)
    requires
        ts_in_range(millis as int),
    ensures
        r < 24,
{
    let utc = chrono::DateTime::<chrono::Utc>::from_timestamp_millis(millis).unwrap();
    utc.with_timezone(&chrono::Local).hour()
}

/// Relies on chrono's `Datelike::year` and `Datelike::month` on the UTC
/// calendar: both depend on the instant alone, and the month is documented
/// to range from 1 to 12.
#[verifier::external_body]
pub fn utc_year_month(millis: i64) -> (r: (i32, u32))
    requires
        ts_in_range(millis as int),
    ensures
        r == year_month_of(millis),
        1 <= r.1 <= 12,
        0 <= r.0 <= 9999,
{
    let utc = chrono::DateTime::<chrono::Utc>::from_timestamp_millis(millis).unwrap();
    (utc.year(), utc.month())
}

} // verus!
