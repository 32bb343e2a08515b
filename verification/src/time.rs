//! Points in time, as the `since` filters of the queries take them.

use vstd::prelude::*;

verus! {

/// A point in time on the UTC time line: whole seconds since
/// 1970-01-01T00:00:00Z and the nanoseconds after them.
#[derive(Debug, Clone, Copy, PartialEq, Eq, Structural)]
pub struct Timestamp {
    /// Whole seconds since the start of 1970, negative before it.
    pub secs: i64,
    /// Nanoseconds after the whole second.
    pub nanos: u32,
}

/// The RFC 3339 text that `chrono` writes for the point in time `secs`
/// seconds and `nanos` nanoseconds after the start of 1970 in UTC; `None`
/// where `chrono::DateTime::from_timestamp` has no date for it.
pub uninterp spec fn rfc3339_text(secs: i64, nanos: u32) -> Option<Seq<char>>;

/// Writes a point in time as RFC 3339 text.
///
/// Trusted: calls `chrono::DateTime::from_timestamp`, which returns `None`
/// for a number of seconds out of its range or an invalid nanosecond, and
/// `chrono::DateTime::to_rfc3339` on what it returns. The contract names the
/// text, which depends on the two numbers alone, and says no more of it.
#[verifier::external_body]
fn rfc3339(secs: i64, nanos: u32) -> (text: Option<String>)
    ensures
        match text {
            Some(t) => rfc3339_text(secs, nanos) == Some(t@),
            None => rfc3339_text(secs, nanos) is None,
        },
{
    match chrono::DateTime::from_timestamp(secs, nanos) {
        Some(time) => Some(time.to_rfc3339()),
        None => None,
    }
}

impl Timestamp {
    /// The point in time `secs` seconds and `nanos` nanoseconds after the
    /// start of 1970.
    pub fn new(secs: i64, nanos: u32) -> (time: Self)
        ensures
            time.secs == secs,
            time.nanos == nanos,
    {
        Timestamp { secs, nanos }
    }

    /// The RFC 3339 text of this point in time, such as
    /// `2015-05-15T00:00:00+00:00`; `None` where the calendar has no date for it.
    pub open spec fn text(self) -> Option<Seq<char>> {
        rfc3339_text(self.secs, self.nanos)
    }

    /// Writes this point in time as RFC 3339 text; `None` exactly where the
    /// calendar has no date for it.
    pub fn to_rfc3339(&self) -> (text: Option<String>)
        ensures
            match text {
                Some(t) => self.text() == Some(t@),
                None => self.text() is None,
            },
    {
        rfc3339(self.secs, self.nanos)
    }
}

} // verus!
