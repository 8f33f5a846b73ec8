//! RFC3339 timestamp handling. Parsing and formatting are delegated to the
//! `chrono` crate; both are pure functions of their input, named here so
//! that contracts can speak about them.
use vstd::prelude::*;

verus! {

/// The timestamp (seconds since the epoch) that `s` denotes as an RFC3339
/// date-time, or `None` when `s` is not one.
pub uninterp spec fn rfc3339_secs(s: Seq<char>) -> Option<i64>;

/// The RFC3339 rendering (in UTC) of `secs` seconds since the epoch, or
/// `None` when the timestamp is outside the representable date range.
pub uninterp spec fn rfc3339_of(secs: i64) -> Option<Seq<char>>;

/// Relies on `chrono::DateTime::parse_from_rfc3339` and
/// `chrono::DateTime::timestamp`: parsing an RFC3339 string and reading the
/// epoch seconds of the result depend on the string alone.
#[verifier::external_body]
pub(crate) fn parse_rfc3339(s: &str) -> (r: Option<i64>)
    ensures
        r == rfc3339_secs(s@),
{
    match chrono::DateTime::parse_from_rfc3339(s) {
        Ok(t) => Some(t.timestamp()),
        Err(_) => None,
    }
}

/// Relies on `chrono::DateTime::from_timestamp` and
/// `chrono::DateTime::to_rfc3339`: the rendering depends on the timestamp
/// alone, and `from_timestamp` returns `None` exactly on out-of-range input.
#[verifier::external_body]
pub(crate) fn format_rfc3339(secs: i64) -> (r: Option<String>)
    ensures
        r is Some <==> rfc3339_of(secs) is Some,
        r matches Some(s) ==> Some(s@) == rfc3339_of(secs),
{
    chrono::DateTime::<chrono::Utc>::from_timestamp(secs, 0).map(|t| t.to_rfc3339())
}

} // verus!
