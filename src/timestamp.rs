//! Rendering of Unix timestamps as UTC calendar text, through chrono.
use vstd::prelude::*;

verus! {

/// The smallest second count that chrono can place on its calendar
/// (January 1 of year -262143, midnight UTC).
pub const MIN_TIMESTAMP: i64 = -8_334_601_228_800;

/// The largest second count that chrono can place on its calendar
/// (December 31 of year 262142, 23:59:59 UTC).
pub const MAX_TIMESTAMP: i64 = 8_210_266_876_799;

/// Whether `secs` seconds after the Unix epoch is an instant chrono can
/// represent.
pub open spec fn timestamp_in_range(secs: int) -> bool {
    MIN_TIMESTAMP <= secs <= MAX_TIMESTAMP
}

/// The text that chrono's `Display` of `DateTime<Utc>` writes for the
/// instant `secs` whole seconds after the Unix epoch
/// (`2015-05-15 00:00:00 UTC`).
pub uninterp spec fn utc_text(secs: int) -> Seq<char>;

/// Relies on `chrono::DateTime::from_timestamp(secs, 0)`, which gives `None`
/// exactly when the day of `secs` falls outside `NaiveDate::MIN ..=
/// NaiveDate::MAX`, and on the `Display` of the `DateTime<Utc>` it returns.
#[verifier::external_body]
pub(crate) fn utc_timestamp_text(secs: i64) -> (r: Option<String>)
    ensures
        r is Some <==> timestamp_in_range(secs as int),
        r matches Some(s) ==> s@ == utc_text(secs as int),
{
    chrono::DateTime::from_timestamp(secs, 0).map(|d| d.to_string())
}

} // verus!
