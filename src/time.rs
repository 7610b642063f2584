use vstd::prelude::*;

verus! {

/// The instant an RFC 3339 timestamp names, in whole seconds since the Unix
/// epoch; `None` where the text is no RFC 3339 timestamp.
pub uninterp spec fn rfc3339_seconds(s: Seq<char>) -> Option<i64>;

/// Relies on chrono's `DateTime::parse_from_rfc3339` and `timestamp`.
#[verifier::external_body]
pub(crate) fn parse_rfc3339(s: &str) -> (r: Option<i64>)
    ensures
        r == rfc3339_seconds(s@),
{
    match chrono::DateTime::parse_from_rfc3339(s) {
        Ok(t) => Some(t.timestamp()),
        Err(_) => None,
    }
}

/// Relies on chrono's `Utc::now` and `timestamp`: the wall-clock time in
/// seconds since the Unix epoch.
#[verifier::external_body]
pub(crate) fn current_timestamp() -> (r: i64) {
    chrono::Utc::now().timestamp()
}

} // verus!
