//! Wall-clock access and RFC 3339 timestamp parsing.
//!
//! Timestamps are carried through the library as plain RFC 3339 strings; the
//! functions here are the only places where the clock itself is read.

use vstd::prelude::*;

verus! {

/// The epoch milliseconds that parsing an RFC 3339 string yields, or `None`
/// when the string is not a valid RFC 3339 date-and-time. The result depends
/// on the characters of the string alone.
pub uninterp spec fn rfc3339_epoch_millis(s: Seq<char>) -> Option<i64>;

/// Relies on chrono's `Utc::now` and `DateTime::to_rfc3339`: the current wall
/// clock, formatted as an RFC 3339 date-and-time string. Nothing is assumed
/// about the value.
#[verifier::external_body]
pub(crate) fn now_rfc3339() -> String {
    chrono::Utc::now().to_rfc3339()
}

/// Relies on chrono's `Utc::now` and `DateTime::timestamp_millis`: the current
/// wall clock as milliseconds since the Unix epoch. Nothing is assumed about
/// the value.
#[verifier::external_body]
pub(crate) fn now_epoch_millis() -> i64 {
    chrono::Utc::now().timestamp_millis()
}

/// Relies on chrono's `DateTime::parse_from_rfc3339` and
/// `DateTime::timestamp_millis`: parsing is a function of the characters of
/// `s` alone, named here by `rfc3339_epoch_millis`.
#[verifier::external_body]
pub(crate) fn parse_rfc3339_epoch_millis(s: &str) -> (r: Option<i64>)
    ensures
        r == rfc3339_epoch_millis(s@),
{
    match chrono::DateTime::parse_from_rfc3339(s) {
        Ok(d) => Some(d.timestamp_millis()),
        Err(_) => None,
    }
}

} // verus!
