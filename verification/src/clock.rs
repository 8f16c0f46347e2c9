//! Calendar time as the keyboards take it: plain fields, with the day of the
//! week worked out by `chrono`.

use vstd::prelude::*;

verus! {

/// The day of the week of a calendar date as `chrono` computes it, counted
/// from Sunday = 0; `None` where `chrono` has no such date.
pub uninterp spec fn calendar_weekday(year: i32, month: u32, day: u32) -> Option<u8>;

/// Calls `chrono::NaiveDate::from_ymd_opt`, and on the date it returns
/// `Datelike::weekday` and `Weekday::num_days_from_sunday`.
///
/// Believed of `chrono`, not proved: the answer depends on the three
/// arguments alone; a date exists only for a month from 1 to 12 and a day
/// from 1 to 31; and the day number runs from 0 (Sunday) to 6 (Saturday).
#[verifier::external_body]
fn weekday_from_sunday(year: i32, month: u32, day: u32) -> (weekday: Option<u8>)
    ensures
        weekday == calendar_weekday(year, month, day),
        weekday matches Some(w) ==> w <= 6 && 1 <= month <= 12 && 1 <= day <= 31,
{
    match chrono::NaiveDate::from_ymd_opt(year, month, day) {
        Some(date) => Some(chrono::Datelike::weekday(&date).num_days_from_sunday() as u8),
        None => None,
    }
}

/// A point in local time, broken into the fields that the clock frames carry.
#[derive(Clone, Copy, Debug, PartialEq, Eq, Structural)]
pub struct WallClock {
    /// Year of the common era
    pub year: u16,
    /// Month, 1 to 12
    pub month: u8,
    /// Day of the month, 1 to 31
    pub day: u8,
    /// Hour, 0 to 23
    pub hour: u8,
    /// Minute, 0 to 59
    pub minute: u8,
    /// Second, 0 to 59
    pub second: u8,
    /// Day of the week, 0 (Sunday) to 6 (Saturday)
    pub weekday: u8,
}

/// The hour on a twelve-hour dial: 12 for midnight and noon.
pub open spec fn hour_on_dial(hour: u8) -> u8 {
    if hour % 12 == 0 {
        12
    } else {
        hour % 12
    }
}

impl WallClock {
    /// Every field lies in its range.
    pub open spec fn wf(self) -> bool {
        &&& 1 <= self.month <= 12
        &&& 1 <= self.day <= 31
        &&& self.hour < 24
        &&& self.minute < 60
        &&& self.second < 60
        &&& self.weekday <= 6
    }

    /// The clock value for the given fields and day of the week, where the
    /// day of the week is known, the year fits into sixteen bits and the time
    /// of day exists.
    pub open spec fn assemble(
        year: i32,
        month: u32,
        day: u32,
        hour: u32,
        minute: u32,
        second: u32,
        weekday: Option<u8>,
    ) -> Option<WallClock> {
        if weekday is Some && weekday->0 <= 6 && 0 <= year <= 0xFFFF && 1 <= month <= 12 && 1
            <= day <= 31 && hour < 24 && minute < 60 && second < 60 {
            Some(
                WallClock {
                    year: year as u16,
                    month: month as u8,
                    day: day as u8,
                    hour: hour as u8,
                    minute: minute as u8,
                    second: second as u8,
                    weekday: weekday->0,
                },
            )
        } else {
            None
        }
    }

    /// Put a clock value together from its fields and an already known day
    /// of the week.
    pub fn with_weekday(
        year: i32,
        month: u32,
        day: u32,
        hour: u32,
        minute: u32,
        second: u32,
        weekday: Option<u8>,
    ) -> (clock: Option<WallClock>)
        ensures
            clock == Self::assemble(year, month, day, hour, minute, second, weekday),
            clock matches Some(c) ==> c.wf(),
    {
        match weekday {
            Some(w) => {
                if w <= 6 && 0 <= year && year <= 0xFFFF && 1 <= month && month <= 12 && 1 <= day
                    && day <= 31 && hour < 24 && minute < 60 && second < 60 {
                    Some(
                        WallClock {
                            year: year as u16,
                            month: month as u8,
                            day: day as u8,
                            hour: hour as u8,
                            minute: minute as u8,
                            second: second as u8,
                            weekday: w,
                        },
                    )
                } else {
                    None
                }
            },
            None => None,
        }
    }

    /// Put a clock value together from a calendar date and a time of day.
    /// The day of the week is the calendar's; there is no value where the
    /// calendar has no such date.
    pub fn from_ymd_hms(
        year: i32,
        month: u32,
        day: u32,
        hour: u32,
        minute: u32,
        second: u32,
    ) -> (clock: Option<WallClock>)
        ensures
            clock == Self::assemble(
                year,
                month,
                day,
                hour,
                minute,
                second,
                calendar_weekday(year, month, day),
            ),
            clock matches Some(c) ==> c.wf(),
    {
        let weekday = weekday_from_sunday(year, month, day);
        Self::with_weekday(year, month, day, hour, minute, second, weekday)
    }

    /// The hour as a twelve-hour dial shows it, from 1 to 12.
    pub fn hour12(&self) -> (h: u8)
        ensures
            h == hour_on_dial(self.hour),
            1 <= h <= 12,
    {
        let h = self.hour % 12;
        if h == 0 {
            12
        } else {
            h
        }
    }
}

/// Milliseconds in an hour.
pub const HOUR_MS: u64 = 3_600_000;

/// How far behind the full hour the hourly timer fires, in milliseconds.
pub const HOUR_SLACK_MS: u64 = 100;

/// Milliseconds that have passed since the last full hour.
pub open spec fn millis_into_hour(minute: u8, second: u8, millis: u16) -> int {
    minute * 60_000 + second * 1_000 + millis
}

/// Milliseconds from now to just after the next full hour. A time past the
/// end of the hour counts as the end of the hour.
pub open spec fn wait_for_next_hour(minute: u8, second: u8, millis: u16) -> int {
    if millis_into_hour(minute, second, millis) >= HOUR_MS {
        HOUR_SLACK_MS as int
    } else {
        HOUR_MS - millis_into_hour(minute, second, millis) + HOUR_SLACK_MS
    }
}

/// Delay before the first tick of the hourly time sync, so that it falls
/// just after the next top of the hour.
pub fn millis_to_next_hour(minute: u8, second: u8, millis: u16) -> (delay: u64)
    ensures
        delay == wait_for_next_hour(minute, second, millis),
        HOUR_SLACK_MS <= delay <= HOUR_MS + HOUR_SLACK_MS,
{
    let elapsed: u64 = minute as u64 * 60_000 + second as u64 * 1_000 + millis as u64;
    if elapsed >= HOUR_MS {
        HOUR_SLACK_MS
    } else {
        HOUR_MS - elapsed + HOUR_SLACK_MS
    }
}

} // verus!
