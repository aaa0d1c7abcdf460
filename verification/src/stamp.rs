//! The timestamp that names a configuration backup, formatted by chrono.

use chrono::DateTime;
use vstd::prelude::*;

verus! {

/// The text that chrono renders for the UTC time `secs` seconds after the Unix
/// epoch with the pattern `%Y%m%dT%H%M%SZ` (year, month, day, `T`, hour,
/// minute, second, `Z`).
pub uninterp spec fn utc_compact_stamp(secs: i64) -> Seq<char>;

/// Calls chrono's `DateTime::from_timestamp(secs, 0)` and formats the result
/// with `%Y%m%dT%H%M%SZ`. Trusted: the text is `utc_compact_stamp(secs)`, and
/// chrono returns a date for every `secs` within about 250,000 years of the
/// epoch (its dates span the years -262143 to 262142), so within the bound
/// stated here the result is present. Outside that bound this contract says
/// nothing of whether a text comes back.
#[verifier::external_body]
pub(crate) fn format_utc_stamp(secs: i64) -> (s: Option<String>)
    ensures
        s matches Some(t) ==> t@ == utc_compact_stamp(secs),
        -8_000_000_000_000 <= secs <= 8_000_000_000_000 ==> s is Some,
{
    match DateTime::from_timestamp(secs, 0) {
        Some(dt) => Some(dt.format("%Y%m%dT%H%M%SZ").to_string()),
        None => None,
    }
}

} // verus!
