use vstd::prelude::*;

use crate::text::{
    all_dec_digits, dec_digits_of, digits_value, parse_u64_digits, u64_to_dec,
};
use crate::time::{MAX_TIMESTAMP_MILLIS, year_month_of, utc_year_month};

verus! {

/// What a marker file's text denotes: the dataset's creation instant in
/// epoch milliseconds, or nothing when the text is not a plain decimal
/// number in the accepted timestamp range. Corruption reads as absence.
pub open spec fn spec_parse_marker(s: Seq<char>) -> Option<i64> {
    if s.len() > 0 && all_dec_digits(s) && digits_value(s) <= MAX_TIMESTAMP_MILLIS as nat {
        Some(digits_value(s) as i64)
    } else {
        None
    }
}

/// Reads a rotation marker's text. A corrupt or out-of-range marker reads
/// as `None`, which callers treat as "no existing dataset".
pub fn parse_marker(text: &str) -> (r: Option<i64>)
    ensures
        r == spec_parse_marker(text@),
{
    match parse_u64_digits(text) {
        Some(v) => {
            if v <= MAX_TIMESTAMP_MILLIS as u64 {
                Some(v as i64)
            } else {
                None
            }
        },
        None => None,
    }
}

/// The text a rotation marker holds for a dataset created at `created`.
pub fn marker_text(created: i64) -> (r: String)
    requires
        crate::time::ts_in_range(created as int),
    ensures
        r@ == dec_digits_of(created as nat),
        spec_parse_marker(r@) == Some(created),
{
    proof {
        crate::text::lemma_digits_roundtrip(created as nat);
    }
    u64_to_dec(created as u64)
}

/// The full name of a calendar month.
pub open spec fn spec_month_name(m: u32) -> Seq<char> {
    if m == 1 { "January"@ }
    else if m == 2 { "February"@ }
    else if m == 3 { "March"@ }
    else if m == 4 { "April"@ }
    else if m == 5 { "May"@ }
    else if m == 6 { "June"@ }
    else if m == 7 { "July"@ }
    else if m == 8 { "August"@ }
    else if m == 9 { "September"@ }
    else if m == 10 { "October"@ }
    else if m == 11 { "November"@ }
    else { "December"@ }
}

/// The full name of a calendar month.
pub fn month_name(m: u32) -> (r: String)
    requires
        1 <= m <= 12,
    ensures
        r@ == spec_month_name(m),
{
    match m {
        1 => "January".to_owned(),
        2 => "February".to_owned(),
        3 => "March".to_owned(),
        4 => "April".to_owned(),
        5 => "May".to_owned(),
        6 => "June".to_owned(),
        7 => "July".to_owned(),
        8 => "August".to_owned(),
        9 => "September".to_owned(),
        10 => "October".to_owned(),
        11 => "November".to_owned(),
        _ => "December".to_owned(),
    }
}

/// The month before `m`, wrapping January back to December.
pub open spec fn spec_previous_month(m: u32) -> u32 {
    if m == 1 {
        12
    } else {
        (m - 1) as u32
    }
}

/// The month before `m`, wrapping January back to December.
pub fn previous_month(m: u32) -> (r: u32)
    requires
        1 <= m <= 12,
    ensures
        r == spec_previous_month(m),
        1 <= r <= 12,
{
    if m == 1 {
        12
    } else {
        m - 1
    }
}

/// The label an archived dataset is filed under at an instant: the name of
/// the month before the instant's UTC month, an underscore, and the
/// instant's UTC year.
pub open spec fn spec_archive_label(now_millis: i64) -> Seq<char> {
    spec_month_name(spec_previous_month(year_month_of(now_millis).1)) + "_"@ + dec_digits_of(
        year_month_of(now_millis).0 as nat,
    )
}

/// The label an archived dataset is filed under at the given instant.
pub fn archive_label(now_millis: i64) -> (r: String)
    requires
        crate::time::ts_in_range(now_millis as int),
    ensures
        r@ == spec_archive_label(now_millis),
{
    let (year, month) = utc_year_month(now_millis);
    let mut out = month_name(previous_month(month));
    proof {
        reveal_strlit("_");
    }
    out.append("_");
    let year_text = u64_to_dec(year as u64);
    out.append(year_text.as_str());
    proof {
        assert(out@ =~= spec_archive_label(now_millis));
    }
    out
}

/// The name an archived table or file is renamed to: the live name, an
/// underscore, and the archive label of the rotation instant.
pub fn archive_file_name(prefix: &str, now_millis: i64) -> (r: String)
    requires
        crate::time::ts_in_range(now_millis as int),
    ensures
        r@ == prefix@ + "_"@ + spec_archive_label(now_millis),
{
    proof {
        reveal_strlit("_");
    }
    let mut out = prefix.to_owned();
    out.append("_");
    let label = archive_label(now_millis);
    out.append(label.as_str());
    out
}

} // verus!
