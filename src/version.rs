//! The update signature: a signed 64-bit version stamp `YYYYMMDDHHMM`.

use vstd::prelude::*;
use crate::clock::read_utc_clock;

verus! {

/// A version stamp. `v <= 0` marks a tombstone, `v <= 1` is irregular,
/// `v >= 2` is a valid, timestamp-derived version.
#[derive(Debug, Clone, Copy, PartialEq, Eq, Structural, PartialOrd, Ord, Hash)]
pub struct UpdateSignature(pub i64);

/// The stamp `YYYYMMDDHHMM` of a calendar minute, as an integer.
pub open spec fn calendar_stamp(year: int, month: int, day: int, hour: int, minute: int) -> int {
    year * 100000000 + month * 1000000 + day * 10000 + hour * 100 + minute
}

/// `v` is the stamp of a calendar minute in 1970 or later.
pub open spec fn is_minute_stamp(v: i64) -> bool {
    exists|y: int, mo: int, d: int, h: int, mi: int|
        y >= 1970 && 1 <= mo <= 12 && 1 <= d <= 31 && 0 <= h <= 23 && 0 <= mi <= 59 && v
            == calendar_stamp(y, mo, d, h, mi)
}

impl UpdateSignature {
    pub fn new(value: i64) -> (r: UpdateSignature)
        ensures
            r.0 == value,
    {
        UpdateSignature(value)
    }

    pub fn as_i64(&self) -> (r: i64)
        ensures
            r == self.0,
    {
        self.0
    }

    /// A tombstone marker: the sender intends the row to be deleted.
    pub fn is_tombstone(&self) -> (r: bool)
        ensures
            r == (self.0 <= 0),
    {
        self.0 <= 0
    }

    /// An irregular (unknown) version: accepted on insert, never wins an update.
    pub fn is_irregular(&self) -> (r: bool)
        ensures
            r == (self.0 <= 1),
    {
        self.0 <= 1
    }

    /// A valid version, one that takes part in update ordering.
    pub fn is_valid(&self) -> (r: bool)
        ensures
            r == (self.0 >= 2),
    {
        self.0 >= 2
    }

    /// The signature of a calendar minute.
    pub fn from_calendar(year: i32, month: u32, day: u32, hour: u32, minute: u32) -> (r:
        UpdateSignature)
        requires
            1 <= month <= 12,
            1 <= day <= 31,
            hour <= 23,
            minute <= 59,
        ensures
            r.0 == calendar_stamp(year as int, month as int, day as int, hour as int, minute as int),
    {
        assert(-2147483648 * 100000000 <= year as int * 100000000 <= 2147483647 * 100000000)
            by (nonlinear_arith)
            requires
                -2147483648 <= year <= 2147483647,
        ;
        let v: i64 = (year as i64) * 100000000 + (month as i64) * 1000000 + (day as i64) * 10000
            + (hour as i64) * 100 + (minute as i64);
        UpdateSignature(v)
    }

    /// The signature of the current UTC minute, a valid version; none when
    /// the clock cannot be read.
    pub fn now() -> (r: Option<UpdateSignature>)
        ensures
            r matches Some(v) ==> v.0 >= 2 && is_minute_stamp(v.0),
    {
        let c = match read_utc_clock() {
            Some(c) => c,
            None => {
                return None;
            },
        };
        assert(c.year as int * 100000000 >= 1970 * 100000000) by (nonlinear_arith)
            requires
                c.year >= 1970,
        ;
        Some(UpdateSignature::from_calendar(c.year, c.month, c.day, c.hour, c.minute))
    }

    /// The signature of the current UTC minute, or the irregular signature 1
    /// when the clock cannot be read.
    pub fn now_or_irregular() -> (r: UpdateSignature)
        ensures
            r.0 == 1 || (r.0 >= 2 && is_minute_stamp(r.0)),
    {
        match UpdateSignature::now() {
            Some(v) => v,
            None => UpdateSignature(1),
        }
    }
}

impl Default for UpdateSignature {
    /// The signature of the current UTC minute, or the irregular signature 1
    /// when the clock cannot be read.
    fn default() -> (r: UpdateSignature)
        ensures
            r.0 == 1 || (r.0 >= 2 && is_minute_stamp(r.0)),
    {
        UpdateSignature::now_or_irregular()
    }
}

} // verus!
