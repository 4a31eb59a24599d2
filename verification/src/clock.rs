//! Points in time.

use chrono::{DateTime, SecondsFormat};
use vstd::prelude::*;

use crate::json::{self, Json};

verus! {

/// A point in time: whole seconds since the Unix epoch, and nanoseconds past that second.
#[derive(Clone, Copy, Debug, PartialEq, Eq, Structural)]
pub struct Timestamp {
    pub secs: i64,
    pub nanos: u32,
}

/// The text of a point in time: nothing where the calendar does not reach.
pub uninterp spec fn rfc3339_text(secs: i64, nanos: u32) -> Option<Seq<char>>;

/// Calls `chrono::DateTime::from_timestamp` and `DateTime::to_rfc3339_opts` with automatic
/// sub-second digits and `Z` for UTC. Claimed of them: whether there is a text, and which one,
/// depends on the two numbers alone.
#[verifier::external_body]
fn format_rfc3339(secs: i64, nanos: u32) -> (r: Option<String>)
    ensures
        match r {
            Some(text) => rfc3339_text(secs, nanos) == Some(text@),
            None => rfc3339_text(secs, nanos) is None,
        },
{
    match DateTime::from_timestamp(secs, nanos) {
        Some(time) => Some(time.to_rfc3339_opts(SecondsFormat::AutoSi, true)),
        None => None,
    }
}

impl Timestamp {
    /// Nanoseconds since the Unix epoch.
    pub open spec fn total(self) -> int {
        self.secs * 1_000_000_000 + self.nanos
    }

    /// The document a point in time is written as: its text, or `null` where it has none.
    pub open spec fn json(self) -> Json {
        match rfc3339_text(self.secs, self.nanos) {
            Some(text) => Json::Str(text),
            None => Json::Null,
        }
    }

    /// Whether this point lies after `other`.
    pub fn after(self, other: Timestamp) -> (r: bool)
        ensures
            r == (self.total() > other.total()),
    {
        let a: i128 = self.secs as i128 * 1_000_000_000 + self.nanos as i128;
        let b: i128 = other.secs as i128 * 1_000_000_000 + other.nanos as i128;
        a > b
    }

    /// Whether more than `limit` seconds lie between `earlier` and this point, to the nanosecond.
    pub fn exceeds(self, earlier: Timestamp, limit: i64) -> (r: bool)
        ensures
            r == (self.total() - earlier.total() > limit * 1_000_000_000),
    {
        let a: i128 = self.secs as i128 * 1_000_000_000 + self.nanos as i128;
        let b: i128 = earlier.secs as i128 * 1_000_000_000 + earlier.nanos as i128;
        a - b > limit as i128 * 1_000_000_000
    }

    /// The document of this point in time.
    pub(crate) fn to_json(self) -> (r: serde_json::Value)
        ensures
            json::json_of(r) == self.json(),
    {
        match format_rfc3339(self.secs, self.nanos) {
            Some(text) => json::string(text.as_str()),
            None => json::null(),
        }
    }
}

} // verus!
