//! Timestamps. The library keeps instants as milliseconds since the Unix epoch
//! and prints them as RFC 3339 text with `chrono`.
use vstd::prelude::*;

verus! {

/// What `chrono` prints for an instant given in milliseconds since the epoch:
/// `DateTime::from_timestamp_millis` followed by `to_rfc3339`, or nothing when
/// the instant is outside the range that `chrono` represents.
pub uninterp spec fn spec_rfc3339_of_millis(ms: i64) -> Option<Seq<char>>;

/// Prints an instant as RFC 3339 text with `chrono`; `None` when
/// `DateTime::from_timestamp_millis` refuses the instant as out of range.
#[verifier::external_body]
pub(crate) fn rfc3339_of_millis(ms: i64) -> (res: Option<String>)
    ensures
        res is Some <==> spec_rfc3339_of_millis(ms) is Some,
        res matches Some(s) ==> spec_rfc3339_of_millis(ms) == Some(s@),
{
    match chrono::DateTime::from_timestamp_millis(ms) {
        Some(t) => Some(t.to_rfc3339()),
        None => None,
    }
}

/// The current time as RFC 3339 text, from `chrono::Utc::now().to_rfc3339()`.
/// It depends on the clock, so nothing is stated of it.
#[verifier::external_body]
pub(crate) fn utc_now_rfc3339() -> String {
    chrono::Utc::now().to_rfc3339()
}

/// The current time in milliseconds since the Unix epoch, from
/// `chrono::Utc::now().timestamp_millis()`. It depends on the clock, so nothing
/// is stated of it.
#[verifier::external_body]
pub(crate) fn utc_now_millis() -> i64 {
    chrono::Utc::now().timestamp_millis()
}

/// An instant as RFC 3339 text; an instant that `chrono` cannot represent is
/// replaced by the current time, as rows with unreadable timestamps are.
pub fn rfc3339_or_now(ms: i64) -> (s: String)
    ensures
        spec_rfc3339_of_millis(ms) matches Some(t) ==> s@ == t,
{
    match rfc3339_of_millis(ms) {
        Some(s) => s,
        None => utc_now_rfc3339(),
    }
}

} // verus!
