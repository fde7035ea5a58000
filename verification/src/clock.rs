use vstd::prelude::*;
use chrono::DateTime;

verus! {

/// An instant: whole seconds since the Unix epoch, in UTC, and the
/// nanoseconds past that second.
#[derive(Debug, Clone, Copy, PartialEq, Eq, Structural)]
pub struct Timestamp {
    pub secs: i64,
    pub nanos: u32,
}

/// The instant that `DateTime::parse_from_rfc3339` reads from a text, where
/// it reads one.
pub uninterp spec fn rfc3339_instant(s: Seq<char>) -> Option<Timestamp>;

/// The RFC 3339 text that `DateTime::to_rfc3339` writes for an instant,
/// where `DateTime::from_timestamp` accepts it.
pub uninterp spec fn rfc3339_text_of(t: Timestamp) -> Option<Seq<char>>;

/// Calls `chrono::DateTime::from_timestamp` to build the instant and
/// `DateTime::to_rfc3339` to write it; `None` where `from_timestamp` refuses
/// the seconds and nanoseconds. The contract claims only that the result is
/// a function of the instant.
#[verifier::external_body]
pub(crate) fn rfc3339_text(t: Timestamp) -> (r: Option<String>)
    ensures
        match r {
            Some(s) => rfc3339_text_of(t) == Some(s@),
            None => rfc3339_text_of(t) is None,
        },
{
    match DateTime::from_timestamp(t.secs, t.nanos) {
        Some(dt) => Some(dt.to_rfc3339()),
        None => None,
    }
}

/// Calls `chrono::DateTime::parse_from_rfc3339` and takes the instant apart
/// with `timestamp` and `timestamp_subsec_nanos`; the contract claims only
/// that the result, with the error turned into `None`, is a function of the
/// text.
#[verifier::external_body]
pub(crate) fn parse_rfc3339(s: &str) -> (r: Option<Timestamp>)
    ensures
        r == rfc3339_instant(s@),
{
    match DateTime::parse_from_rfc3339(s) {
        Ok(dt) => Some(Timestamp { secs: dt.timestamp(), nanos: dt.timestamp_subsec_nanos() }),
        Err(_) => None,
    }
}

} // verus!
