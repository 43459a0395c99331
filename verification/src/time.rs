//! Instants in UTC, as the decoders normalize them.

use crate::error::{outcome, Error, ErrorView};
use crate::json::{find, lookup, Json, JsonValue};
use vstd::prelude::*;

verus! {

/// An instant in UTC: whole seconds since 1970-01-01T00:00:00Z, leap
/// seconds not counted, and the nanoseconds past that second.
#[derive(Debug, Clone, Copy, PartialEq, Eq, Structural)]
pub struct Timestamp {
    pub secs: i64,
    pub nanos: u32,
}

impl DeepView for Timestamp {
    type V = Timestamp;

    open spec fn deep_view(&self) -> Timestamp {
        *self
    }
}

/// The instant that `chrono` reads from a date-and-time text, as seconds and
/// nanoseconds; `None` where it reads none.
pub uninterp spec fn instant_of(text: Seq<char>) -> Option<(i64, u32)>;

/// Parses a text as `chrono::DateTime<FixedOffset>`, by its `FromStr`, and
/// takes `timestamp()` and `timestamp_subsec_nanos()` of what was read. The
/// contract claims that the outcome depends on the text alone.
#[verifier::external_body]
fn read_instant(text: &str) -> (r: Option<(i64, u32)>)
    ensures
        r == instant_of(text@),
{
    text.parse::<chrono::DateTime<chrono::FixedOffset>>().ok().map(
        |t| (t.timestamp(), t.timestamp_subsec_nanos()),
    )
}

impl Timestamp {
    /// The instant in milliseconds since the epoch, rounded down.
    pub open spec fn millis(self) -> int {
        self.secs * 1000 + self.nanos / 1_000_000
    }

    /// The instant that a date-and-time text denotes.
    pub open spec fn of_text(text: Seq<char>) -> Option<Timestamp> {
        match instant_of(text) {
            Some((secs, nanos)) => Some(Timestamp { secs, nanos }),
            None => None,
        }
    }

    /// The instant `secs` seconds after the epoch.
    pub fn from_seconds(secs: i64) -> (t: Timestamp)
        ensures
            t == (Timestamp { secs, nanos: 0 }),
    {
        Timestamp { secs, nanos: 0 }
    }

    /// The instant `millis` milliseconds after the epoch (before it, where
    /// `millis` is negative): the same instant, in seconds and nanoseconds.
    pub fn from_millis(millis: i64) -> (t: Timestamp)
        ensures
            t.millis() == millis,
            t.nanos % 1_000_000 == 0,
            t.nanos < 1_000_000_000,
    {
        let rem: i64 = millis % 1000;
        let quot: i64 = millis / 1000;
        if rem < 0 {
            let part: i64 = (rem + 1000) * 1_000_000;
            Timestamp { secs: quot - 1, nanos: part as u32 }
        } else {
            let part: i64 = rem * 1_000_000;
            Timestamp { secs: quot, nanos: part as u32 }
        }
    }

    /// The instant in milliseconds since the epoch, rounded down; `None`
    /// where that does not fit in 64 bits.
    pub fn to_millis(self) -> (millis: Option<i64>)
        ensures
            match millis {
                Some(m) => m == self.millis(),
                None => self.millis() < i64::MIN || self.millis() > i64::MAX,
            },
    {
        let whole: i128 = self.secs as i128 * 1000;
        let part: u32 = self.nanos / 1_000_000;
        let sum: i128 = whole + part as i128;
        if sum < i64::MIN as i128 || sum > i64::MAX as i128 {
            None
        } else {
            Some(sum as i64)
        }
    }

    /// Reads an RFC 3339 date-and-time text, whatever its offset from UTC.
    pub fn parse(text: &str) -> (t: Option<Timestamp>)
        ensures
            t == Timestamp::of_text(text@),
    {
        match read_instant(text) {
            Some((secs, nanos)) => Some(Timestamp { secs, nanos }),
            None => None,
        }
    }
}

/// A required timestamp field: a string that denotes an instant.
pub open spec fn instant_at(
    fields: Seq<(Seq<char>, Json)>,
    name: Seq<char>,
) -> Result<Timestamp, ErrorView> {
    match lookup(fields, name) {
        None => Err(ErrorView::missing(name)),
        Some(Json::Null) => Err(ErrorView::null(name)),
        Some(Json::Text(s)) => match Timestamp::of_text(s) {
            Some(t) => Ok(t),
            None => Err(ErrorView::bad_timestamp(name, s)),
        },
        Some(_) => Err(ErrorView::wrong_type(name)),
    }
}

/// An optional timestamp field: absent where the field is missing or null.
pub open spec fn opt_instant_at(fields: Seq<(Seq<char>, Json)>, name: Seq<char>) -> Result<
    Option<Timestamp>,
    ErrorView,
> {
    match lookup(fields, name) {
        None => Ok(None),
        Some(Json::Null) => Ok(None),
        Some(Json::Text(s)) => match Timestamp::of_text(s) {
            Some(t) => Ok(Some(t)),
            None => Err(ErrorView::bad_timestamp(name, s)),
        },
        Some(_) => Err(ErrorView::wrong_type(name)),
    }
}

/// Reads a required timestamp field.
pub fn required_instant(
    entries: &Vec<(String, JsonValue)>,
    name: &str,
) -> (r: Result<Timestamp, Error>)
    ensures
        outcome(r) == instant_at(entries.deep_view(), name@),
{
    match find(entries, name) {
        None => Err(Error::missing(name)),
        Some(JsonValue::Null) => Err(Error::null(name)),
        Some(JsonValue::Text(s)) => match Timestamp::parse(s.as_str()) {
            Some(t) => Ok(t),
            None => Err(Error::bad_timestamp(name, s.as_str())),
        },
        Some(_) => Err(Error::wrong_type(name)),
    }
}

/// Reads an optional timestamp field.
pub fn optional_instant(entries: &Vec<(String, JsonValue)>, name: &str) -> (r: Result<
    Option<Timestamp>,
    Error,
>)
    ensures
        outcome(r) == opt_instant_at(entries.deep_view(), name@),
{
    match find(entries, name) {
        None => Ok(None),
        Some(JsonValue::Null) => Ok(None),
        Some(JsonValue::Text(s)) => match Timestamp::parse(s.as_str()) {
            Some(t) => Ok(Some(t)),
            None => Err(Error::bad_timestamp(name, s.as_str())),
        },
        Some(_) => Err(Error::wrong_type(name)),
    }
}

} // verus!
