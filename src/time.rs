//! Points in time, as read from event documents, and the spans between them.
use vstd::prelude::*;

use crate::json::{member, DecodeError, Json};

verus! {

/// A point in time: whole seconds since the Unix epoch and the nanoseconds past that second.
#[derive(Clone, Copy, Debug, PartialEq, Eq, Structural)]
pub struct Timestamp {
    pub secs: i64,
    pub nanos: u32,
}

/// The instant that chrono reads from an RFC 3339 text, as seconds and sub-second nanoseconds.
pub uninterp spec fn utc_instant(s: Seq<char>) -> Option<(i64, u32)>;

/// Relies on chrono's `FromStr for DateTime<Utc>` (a relaxed RFC 3339 reading, the offset
/// applied) and on `DateTime::timestamp` and `DateTime::timestamp_subsec_nanos` to take the
/// result apart: what comes back depends on the text alone.
#[verifier::external_body]
fn parse_instant(s: &str) -> (r: Option<(i64, u32)>)
    ensures
        r == utc_instant(s@),
{
    s.parse::<chrono::DateTime<chrono::Utc>>().ok().map(|t| (t.timestamp(), t.timestamp_subsec_nanos()))
}

/// The timestamp an RFC 3339 text denotes, if it is one.
pub open spec fn instant_of(s: Seq<char>) -> Option<Timestamp> {
    match utc_instant(s) {
        Some((secs, nanos)) => Some(Timestamp { secs, nanos }),
        None => None,
    }
}

/// A required member holding an RFC 3339 timestamp.
pub open spec fn time_field(j: Json, key: Seq<char>) -> Option<Timestamp> {
    match member(j, key) {
        Some(Json::String(s)) => instant_of(s@),
        _ => None,
    }
}

/// Reads an RFC 3339 text.
pub fn parse_timestamp(s: &str) -> (r: Option<Timestamp>)
    ensures
        r == instant_of(s@),
{
    match parse_instant(s) {
        Some((secs, nanos)) => Some(Timestamp { secs, nanos }),
        None => None,
    }
}

pub fn read_time(j: &Json, key: &str) -> (r: Result<Timestamp, DecodeError>)
    ensures
        match r {
            Ok(t) => time_field(*j, key@) == Some(t),
            Err(_) => time_field(*j, key@) is None,
        },
{
    match j.get(key) {
        Some(Json::String(s)) => match parse_timestamp(s.as_str()) {
            Some(t) => Ok(t),
            None => Err(DecodeError::at(key)),
        },
        _ => Err(DecodeError::at(key)),
    }
}

pub open spec fn abs(x: int) -> nat {
    if x < 0 {
        (-x) as nat
    } else {
        x as nat
    }
}

impl Timestamp {
    /// Nanoseconds since the Unix epoch.
    pub open spec fn epoch_nanos(self) -> int {
        self.secs * 1_000_000_000 + self.nanos
    }

    /// The instant a count of milliseconds since the Unix epoch denotes.
    pub fn from_epoch_millis(ms: u64) -> (r: Timestamp)
        ensures
            r.secs == ms / 1000,
            r.nanos == (ms % 1000) * 1_000_000,
            r.epoch_nanos() == ms * 1_000_000,
    {
        let secs = (ms / 1000) as i64;
        let nanos = ((ms % 1000) * 1_000_000) as u32;
        assert((ms / 1000) * 1_000_000_000 + (ms % 1000) * 1_000_000 == ms * 1_000_000) by (nonlinear_arith);
        Timestamp { secs, nanos }
    }
}

/// The time between two instants in nanoseconds, whichever of them comes first.
pub fn elapsed(start: Timestamp, end: Timestamp) -> (r: u128)
    ensures
        r == abs(end.epoch_nanos() - start.epoch_nanos()),
{
    let s: i128 = start.secs as i128 * 1_000_000_000 + start.nanos as i128;
    let e: i128 = end.secs as i128 * 1_000_000_000 + end.nanos as i128;
    if e > s {
        (e - s) as u128
    } else {
        (s - e) as u128
    }
}

} // verus!
