//! The wall clock and the textual form of instants, through the `chrono` crate.

use vstd::prelude::*;

verus! {

/// The text that `chrono` writes for the UTC instant `secs` seconds after the
/// epoch, in the form `YYYY-MM-DD HH:MM:SS` that the store's own clock uses.
pub uninterp spec fn utc_text(secs: int) -> Seq<char>;

/// Relies on `chrono::Utc::now` and `DateTime::timestamp`: the current time in
/// whole seconds since the epoch.
#[verifier::external_body]
pub(crate) fn now_seconds() -> (r: i64)
{
    chrono::Utc::now().timestamp()
}

/// The instants that `chrono` represents: from the first second of year
/// -262143 to the last second of year 262142.
pub open spec fn utc_representable(secs: int) -> bool {
    -8_334_601_228_800 <= secs <= 8_210_266_876_799
}

/// Relies on `chrono::DateTime::from_timestamp` and `format`: the instant
/// written as `YYYY-MM-DD HH:MM:SS`, or `None` where it lies outside the range
/// that `chrono` represents (`from_timestamp` answers `None` exactly when the
/// date's year falls outside `MIN_YEAR..=MAX_YEAR`).
#[verifier::external_body]
pub(crate) fn format_utc(secs: i64) -> (r: Option<String>)
    ensures
        r is Some <==> utc_representable(secs as int),
        r matches Some(s) ==> s@ == utc_text(secs as int),
{
    chrono::DateTime::from_timestamp(secs, 0).map(|d| d.format("%Y-%m-%d %H:%M:%S").to_string())
}

} // verus!
