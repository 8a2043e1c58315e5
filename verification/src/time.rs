//! Points in time as the host hands them over: seconds and nanoseconds.

use vstd::prelude::*;

verus! {

/// A point in time: whole seconds since the Unix epoch and a nanosecond part.
#[derive(Clone, Copy, Debug, PartialEq, Eq, Structural)]
pub struct Timestamp {
    pub seconds: i64,
    pub nanos: i32,
}

/// The text that `prost_types::Timestamp` displays for the given seconds and
/// nanoseconds: an RFC 3339 date and time in UTC.
pub uninterp spec fn timestamp_text(seconds: int, nanos: int) -> Seq<char>;

/// Calls `to_string` on a `prost_types::Timestamp` with these two fields.
///
/// Trusted: the text depends on the two fields alone.
#[verifier::external_body]
pub(crate) fn format_timestamp(seconds: i64, nanos: i32) -> (text: String)
    ensures
        text@ == timestamp_text(seconds as int, nanos as int),
{
    prost_types::Timestamp { seconds, nanos }.to_string()
}

impl Timestamp {
    /// The RFC 3339 text of this point in time.
    pub fn to_text(&self) -> (text: String)
        ensures
            text@ == timestamp_text(self.seconds as int, self.nanos as int),
    {
        format_timestamp(self.seconds, self.nanos)
    }
}

} // verus!
