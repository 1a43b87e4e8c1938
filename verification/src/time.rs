//! Timestamps.  A message's timestamp is RFC 3339 text; the recency window
//! compares instants, so the text is turned into microseconds since the Unix
//! epoch by chrono and the rest of the parser works on that plain value.

use vstd::prelude::*;

verus! {

/// The instant an RFC 3339 timestamp denotes, in microseconds since the Unix
/// epoch, or `None` where the text is not a valid timestamp.  The value is a
/// function of the text alone; its definition lives in chrono.
pub uninterp spec fn timestamp_micros_of(s: Seq<char>) -> Option<i64>;

/// Relies on chrono's `DateTime::parse_from_str` with the `"%+"` (RFC 3339)
/// format, and on `DateTime::timestamp_micros` to read the parsed instant:
/// both are deterministic in the text, and `timestamp_micros` is total over
/// chrono's date range.
#[verifier::external_body]
pub(crate) fn parse_timestamp_micros(s: &str) -> (r: Option<i64>)
    ensures
        r == timestamp_micros_of(s@),
{
    match chrono::DateTime::parse_from_str(s, "%+") {
        Ok(dt) => Some(dt.timestamp_micros()),
        Err(_) => None,
    }
}

} // verus!
