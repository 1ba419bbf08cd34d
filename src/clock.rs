//! The UTC clock, read into plain values. Reading it can fail: the system
//! clock may stand before the Unix epoch, or outside the calendar range.

use vstd::prelude::*;
use std::time::SystemTime;
use chrono::{Datelike, Timelike};

verus! {

#[verifier::external_type_specification]
#[verifier::external_body]
pub struct ExSystemTime(std::time::SystemTime);

/// The calendar minute (year, month, day, hour, minute) that chrono gives
/// the UTC instant `seconds` and `nanos` after the Unix epoch, or none where
/// chrono refuses the instant.
pub uninterp spec fn utc_calendar(seconds: i64, nanos: u32) -> Option<(i32, u32, u32, u32, u32)>;

/// One reading of the UTC clock: the instant as seconds and nanoseconds
/// since the epoch, and its calendar minute.
pub struct ClockReading {
    pub seconds: i64,
    pub nanos: u32,
    pub year: i32,
    pub month: u32,
    pub day: u32,
    pub hour: u32,
    pub minute: u32,
}

/// Relies on std's `SystemTime::now`: the system clock, whatever it reads.
#[verifier::external_body]
fn system_now() -> (r: SystemTime) {
    SystemTime::now()
}

/// Relies on std's `SystemTime::duration_since(UNIX_EPOCH)`: none when `t`
/// is before the epoch, else the whole seconds and the `subsec_nanos` of
/// the distance, which std documents as below one billion.
#[verifier::external_body]
fn since_epoch(t: &SystemTime) -> (r: Option<(u64, u32)>)
    ensures
        r matches Some(d) ==> d.1 < 1_000_000_000,
{
    match t.duration_since(std::time::UNIX_EPOCH) {
        Ok(d) => Some((d.as_secs(), d.subsec_nanos())),
        Err(_) => None,
    }
}

/// Relies on chrono's `DateTime::from_timestamp`, read through the
/// `Datelike` / `Timelike` accessors: none on an out-of-range instant. The
/// ranges are those chrono documents for `month`, `day`, `hour` and
/// `minute`; an instant at or after the epoch (seconds counted from
/// 1970-01-01) falls in 1970 or later.
#[verifier::external_body]
fn calendar_of(seconds: i64, nanos: u32) -> (r: Option<(i32, u32, u32, u32, u32)>)
    ensures
        r == utc_calendar(seconds, nanos),
        r matches Some(c) ==> 1 <= c.1 <= 12 && 1 <= c.2 <= 31 && c.3 <= 23 && c.4 <= 59,
        r matches Some(c) ==> (seconds >= 0 ==> c.0 >= 1970),
{
    match chrono::DateTime::from_timestamp(seconds, nanos) {
        Some(d) => Some((d.year(), d.month(), d.day(), d.hour(), d.minute())),
        None => None,
    }
}

/// Reads the UTC clock; none when it stands before the Unix epoch or
/// outside what chrono can represent.
pub fn read_utc_clock() -> (r: Option<ClockReading>)
    ensures
        r matches Some(c) ==> {
            &&& c.seconds >= 0
            &&& c.nanos < 1_000_000_000
            &&& c.year >= 1970
            &&& 1 <= c.month <= 12
            &&& 1 <= c.day <= 31
            &&& c.hour <= 23
            &&& c.minute <= 59
            &&& utc_calendar(c.seconds, c.nanos) == Some((c.year, c.month, c.day, c.hour, c.minute))
        },
{
    let now = system_now();
    let (secs, nanos) = match since_epoch(&now) {
        Some(d) => d,
        None => {
            return None;
        },
    };
    if secs > 9223372036854775807 {
        return None;
    }
    let seconds = secs as i64;
    match calendar_of(seconds, nanos) {
        Some(c) => Some(
            ClockReading {
                seconds,
                nanos,
                year: c.0,
                month: c.1,
                day: c.2,
                hour: c.3,
                minute: c.4,
            },
        ),
        None => None,
    }
}

} // verus!
