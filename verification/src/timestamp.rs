//! Civil timestamps in the broadcast zone, and the clock that produces them.

use chrono::{Datelike, Timelike};
use std::time::SystemTime;
use vstd::prelude::*;

verus! {

/// Offset of the broadcast zone, China Standard Time, east of UTC in seconds.
pub const CST_OFFSET_SECONDS: i32 = 28_800;

/// Microseconds in one second.
pub const MICROS_PER_SECOND: u32 = 1_000_000;

/// A snapshot of civil time in one fixed zone.
///
/// `year` is the calendar year, `weekday` counts from Monday = 1 to
/// Sunday = 7, and the hour is kept on the twelve-hour clock: `hour12` runs
/// from 1 to 12 and `pm` tells the half of the day. `subsec_micros` is the
/// time elapsed since the start of `second`.
#[derive(Clone, Copy, Debug, PartialEq, Eq, Structural)]
pub struct ZonedTimestamp {
    pub year: i32,
    pub month: u32,
    pub day: u32,
    pub weekday: u32,
    pub pm: bool,
    pub hour12: u32,
    pub minute: u32,
    pub second: u32,
    pub subsec_micros: u32,
}

impl ZonedTimestamp {
    /// Every field lies in its civil range. The year is unconstrained.
    pub open spec fn wf(&self) -> bool {
        &&& 1 <= self.month <= 12
        &&& 1 <= self.day <= 31
        &&& 1 <= self.weekday <= 7
        &&& 1 <= self.hour12 <= 12
        &&& self.minute <= 59
        &&& self.second <= 59
        &&& self.subsec_micros < MICROS_PER_SECOND
    }

    /// Tells whether every field lies in its civil range.
    pub fn is_valid(&self) -> (valid: bool)
        ensures
            valid == self.wf(),
    {
        1 <= self.month && self.month <= 12 && 1 <= self.day && self.day <= 31 && 1
            <= self.weekday && self.weekday <= 7 && 1 <= self.hour12 && self.hour12 <= 12
            && self.minute <= 59 && self.second <= 59 && self.subsec_micros < MICROS_PER_SECOND
    }
}

/// Reads the system clock with `std::time::SystemTime::now`, turns the
/// reading into a `chrono::DateTime<Utc>` through chrono's `From<SystemTime>`,
/// moves it into the zone `offset_seconds` east of UTC with
/// `FixedOffset::east_opt` and `DateTime::with_timezone`, and copies the civil
/// fields out of the result.
///
/// Trusted: the ranges are the ones chrono documents for `month`, `day`,
/// `number_from_monday`, `hour12`, `minute` and `second`. The sub-second part
/// stays below one second because the conversion takes it from the
/// fractional part of a `std::time::Duration`, for a clock on either side of
/// 1970. `east_opt` accepts exactly the offsets that the precondition admits.
/// The conversion has no value for an instant outside chrono's range of
/// years, some 262 000 either side of year 0, which no system clock reaches.
#[verifier::external_body]
fn zoned_now(offset_seconds: i32) -> (now: ZonedTimestamp)
    requires
        -86_400 < offset_seconds < 86_400,
    ensures
        now.wf(),
{
    let zone = chrono::FixedOffset::east_opt(offset_seconds).unwrap();
    let now = chrono::DateTime::<chrono::Utc>::from(SystemTime::now()).with_timezone(&zone);
    let (pm, hour12) = now.hour12();
    ZonedTimestamp {
        year: now.year(),
        month: now.month(),
        day: now.day(),
        weekday: now.weekday().number_from_monday(),
        pm,
        hour12,
        minute: now.minute(),
        second: now.second(),
        subsec_micros: now.timestamp_subsec_micros(),
    }
}

/// The current time in China Standard Time.
pub fn cst() -> (now: ZonedTimestamp)
    ensures
        now.wf(),
{
    zoned_now(CST_OFFSET_SECONDS)
}

} // verus!
