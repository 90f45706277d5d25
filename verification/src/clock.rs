//! The time that goes into a record: the local wall clock, read as a calendar date and
//! turned into seconds since the Unix epoch.
use vstd::prelude::*;
use chrono::{Datelike, Timelike};
use crate::api::Timestamp;

verus! {

/// A reading of the wall clock as calendar fields.
#[derive(Clone, Copy, Debug, PartialEq, Eq, Structural)]
pub struct WallClock {
    pub year: i64,
    pub month: u8,
    pub day: u8,
    pub hour: u8,
    pub minute: u8,
    pub second: u8,
    pub nanosecond: u32,
}

/// The instant that calendar fields name when read as a date and time in UTC: seconds
/// since the Unix epoch and nanoseconds within the second, or `None` where the fields
/// name no date and time.
pub uninterp spec fn utc_timestamp(
    year: i64,
    month: u8,
    day: u8,
    hour: u8,
    minute: u8,
    second: u8,
    nanos: u32,
) -> Option<(i64, i32)>;

/// The instant a clock reading names, if it names one.
pub open spec fn instant_of(t: WallClock) -> Option<Timestamp> {
    match utc_timestamp(t.year, t.month, t.day, t.hour, t.minute, t.second, t.nanosecond) {
        Some(p) => Some(Timestamp { seconds: p.0, nanos: p.1 }),
        None => None,
    }
}

/// Whether the fields lie in the ranges of a calendar date and a time of day, a leap
/// second counted in the nanoseconds.
pub open spec fn plausible(t: WallClock) -> bool {
    &&& 1 <= t.month <= 12
    &&& 1 <= t.day <= 31
    &&& t.hour <= 23
    &&& t.minute <= 59
    &&& t.second <= 59
    &&& t.nanosecond <= 1_999_999_999
}

/// Whether a timestamp is what some reading of the clock comes to.
pub open spec fn stamped(ts: Option<Timestamp>) -> bool {
    exists|t: WallClock| #[trigger] plausible(t) && ts == instant_of(t)
}

/// Reads the local wall clock.
///
/// Trusted: calls `chrono::Local::now` and takes the calendar fields of the result.
/// The value depends on the clock and the time zone of the machine; the contract holds
/// only the ranges that chrono documents for the fields of any date and time.
#[verifier::external_body]
pub(crate) fn local_now() -> (t: WallClock)
    ensures
        plausible(t),
{
    let dt = chrono::Local::now();
    WallClock {
        year: dt.year() as i64,
        month: dt.month() as u8,
        day: dt.day() as u8,
        hour: dt.hour() as u8,
        minute: dt.minute() as u8,
        second: dt.second() as u8,
        nanosecond: dt.nanosecond(),
    }
}

/// Turns calendar fields into an instant.
///
/// Trusted: calls `prost_types::Timestamp::date_time_nanos`, which checks that the
/// fields name a date and time and converts them as UTC. Its result is a function of
/// the seven numbers alone; the contract gives that function a name and says no more.
#[verifier::external_body]
fn date_time_nanos(
    year: i64,
    month: u8,
    day: u8,
    hour: u8,
    minute: u8,
    second: u8,
    nanos: u32,
) -> (r: Option<(i64, i32)>)
    ensures
        r == utc_timestamp(year, month, day, hour, minute, second, nanos),
{
    match prost_types::Timestamp::date_time_nanos(year, month, day, hour, minute, second, nanos) {
        Ok(ts) => Some((ts.seconds, ts.nanos)),
        Err(_) => None,
    }
}

/// The instant that a clock reading names, or `None` where it names none (a reading
/// taken within a leap second, for one).
pub fn timestamp_of(t: WallClock) -> (r: Option<Timestamp>)
    ensures
        r == instant_of(t),
{
    match date_time_nanos(t.year, t.month, t.day, t.hour, t.minute, t.second, t.nanosecond) {
        Some(p) => Some(Timestamp { seconds: p.0, nanos: p.1 }),
        None => None,
    }
}

/// The time now, as it goes into a record: the instant that the reading of the local
/// wall clock names, or `None` where that reading names none.
pub fn current_timestamp() -> (ts: Option<Timestamp>)
    ensures
        stamped(ts),
{
    let t = local_now();
    let ts = timestamp_of(t);
    assert(plausible(t) && ts == instant_of(t));
    ts
}

} // verus!
