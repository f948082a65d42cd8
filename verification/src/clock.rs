//! Calendar time as read from text.

use vstd::prelude::*;

verus! {

/// A point in time: seconds since 1970 and nanoseconds within the second.
#[derive(Clone, Copy, Debug, PartialEq, Eq, Structural)]
pub struct UtcTime {
    pub secs: i64,
    pub nanos: u32,
}

impl UtcTime {
    /// Whether this point is not after `other`.
    pub open spec fn at_or_before(self, other: UtcTime) -> bool {
        self.secs < other.secs || (self.secs == other.secs && self.nanos <= other.nanos)
    }

    /// Whether this point is not after `other`.
    pub fn not_after(self, other: UtcTime) -> (res: bool)
        ensures
            res == self.at_or_before(other),
    {
        self.secs < other.secs || (self.secs == other.secs && self.nanos <= other.nanos)
    }
}

/// The point in time that `chrono::DateTime::parse_from_rfc3339` reads from a
/// text, if it reads one.
pub uninterp spec fn rfc3339_time(text: Seq<char>) -> Option<UtcTime>;

/// `chrono::DateTime::parse_from_rfc3339` decides from the text alone whether it
/// is an RFC 3339 time, and which one.
#[verifier::external_body]
pub(crate) fn parse_rfc3339(text: &str) -> (res: Option<UtcTime>)
    ensures
        res == rfc3339_time(text@),
{
    let time = chrono::DateTime::parse_from_rfc3339(text).ok()?;
    Some(UtcTime { secs: time.timestamp(), nanos: time.timestamp_subsec_nanos() })
}

} // verus!
