//! Points in time, as plain numbers, and the reading of timestamps from text.

use vstd::prelude::*;

verus! {

/// A point in time: whole seconds since the Unix epoch (UTC), and the
/// nanoseconds that have passed of the second after.
#[derive(Clone, Copy, Debug, PartialEq, Eq, Structural, Hash)]
pub struct Timestamp {
    /// Seconds since 1970-01-01T00:00:00Z; negative before it.
    pub seconds: i64,
    /// Nanoseconds into that second.
    pub nanos: u32,
}

impl Timestamp {
    /// Whether this point in time lies before `other`.
    pub open spec fn is_before(self, other: Timestamp) -> bool {
        self.seconds < other.seconds || (self.seconds == other.seconds && self.nanos
            < other.nanos)
    }

    /// The point in time `seconds` after the epoch.
    pub fn from_seconds(seconds: i64) -> (t: Timestamp)
        ensures
            t == (Timestamp { seconds, nanos: 0 }),
    {
        Timestamp { seconds, nanos: 0 }
    }

    /// Whether this point in time lies before `other`.
    pub fn before(&self, other: &Timestamp) -> (b: bool)
        ensures
            b == self.is_before(*other),
    {
        self.seconds < other.seconds || (self.seconds == other.seconds && self.nanos
            < other.nanos)
    }
}

/// A timestamp was present but could not be read as a calendar date and time.
#[derive(Debug)]
pub struct TimeFormatError {
    /// The text that could not be read.
    pub text: String,
}

/// The error that `chrono` reports when a text does not match a format.
#[verifier::external_type_specification]
#[verifier::external_body]
pub struct ExParseError(chrono::ParseError);

/// What `chrono::NaiveDateTime::parse_from_str` makes of `text` under the
/// strftime pattern `format`: the date and time read as UTC, or `None`
/// where it reports an error.
pub uninterp spec fn parsed_datetime(text: Seq<char>, format: Seq<char>) -> Option<Timestamp>;

/// Reads a date and time with `chrono::NaiveDateTime::parse_from_str`, and
/// takes its seconds and nanoseconds since the epoch with `and_utc`,
/// `timestamp` and `timestamp_subsec_nanos`.
///
/// Trusted: the result is a function of the two texts alone, named
/// [`parsed_datetime`]. Nothing is claimed about which texts parse.
#[verifier::external_body]
fn parse_naive_datetime(text: &str, format: &str) -> (r: Result<Timestamp, chrono::ParseError>)
    ensures
        r is Ok <==> parsed_datetime(text@, format@) is Some,
        r matches Ok(t) ==> parsed_datetime(text@, format@) == Some(t),
{
    match chrono::NaiveDateTime::parse_from_str(text, format) {
        Ok(t) => Ok(
            Timestamp {
                seconds: t.and_utc().timestamp(),
                nanos: t.and_utc().timestamp_subsec_nanos(),
            },
        ),
        Err(e) => Err(e),
    }
}

/// Reads `text` as a date and time in UTC that follows the strftime pattern
/// `format`, and fails with the text where it does not.
pub fn parse_timestamp(text: &str, format: &str) -> (r: Result<Timestamp, TimeFormatError>)
    ensures
        match parsed_datetime(text@, format@) {
            Some(t) => r == Ok::<Timestamp, TimeFormatError>(t),
            None => r matches Err(e) && e.text@ == text@,
        },
{
    match parse_naive_datetime(text, format) {
        Ok(t) => Ok(t),
        Err(_) => Err(TimeFormatError { text: text.to_owned() }),
    }
}

} // verus!
