//! Calendar dates and the reconstruction of a timeslot's UTC instant.
//!
//! The upstream page shows times of day in the venue's fixed local zone,
//! UTC+8. A record's instant is the target date at the parsed hour, minus
//! eight hours, expressed as Unix seconds.

use vstd::prelude::*;

use crate::errors::Error;
use crate::slot_text::{parse_hour, spec_hour_value};

verus! {

/// A civil calendar date.
#[derive(Debug, Clone, Copy, PartialEq, Eq, Structural)]
pub struct Date {
    pub year: u16,
    pub month: u8,
    pub day: u8,
}

pub open spec fn spec_is_leap_year(y: int) -> bool {
    y % 4 == 0 && (y % 100 != 0 || y % 400 == 0)
}

pub open spec fn spec_days_in_month(y: int, m: int) -> int {
    if m == 2 {
        if spec_is_leap_year(y) {
            29
        } else {
            28
        }
    } else if m == 4 || m == 6 || m == 9 || m == 11 {
        30
    } else {
        31
    }
}

/// Day number of a civil date, counted from 1970-01-01.
pub open spec fn spec_epoch_days(y: int, m: int, d: int) -> int {
    let yy = if m <= 2 {
        y - 1
    } else {
        y
    };
    let era = yy / 400;
    let yoe = yy - era * 400;
    let mp = (m + 9) % 12;
    let doy = (153 * mp + 2) / 5 + d - 1;
    let doe = yoe * 365 + yoe / 4 - yoe / 100 + doy;
    era * 146097 + doe - 719468
}

/// Unix seconds of a date's midnight.
pub open spec fn spec_epoch_seconds(d: Date) -> int {
    spec_epoch_days(d.year as int, d.month as int, d.day as int) * 86400
}

/// Unix instant of the target date at a local hour, shifted from UTC+8
/// back to UTC.
///
/// The hour is taken as written and is deliberately not held to a day's
/// range: the `PM` rule can read `"12:00 PM"` as hour 24, an invalid
/// time of day, and this formula then lands on the next day rather than
/// rejecting the label. Totalizing the known-invalid hour keeps
/// extraction infallible; a caller that needs a same-day instant must
/// check the hour itself.
pub open spec fn spec_slot_instant(d: Date, hour: int) -> int {
    spec_epoch_seconds(d) + hour * 3600 - 28800
}

impl Date {
    /// The dates the library works on: civil dates from 1970 through 9999.
    pub open spec fn valid(self) -> bool {
        &&& 1970 <= self.year <= 9999
        &&& 1 <= self.month <= 12
        &&& 1 <= self.day <= spec_days_in_month(self.year as int, self.month as int)
    }

    /// Builds a date after checking it against the civil calendar.
    pub fn new(year: u16, month: u8, day: u8) -> (r: Option<Date>)
        ensures
            match r {
                Some(d) => d == (Date { year, month, day }) && d.valid(),
                None => !(Date { year, month, day }).valid(),
            },
    {
        if year < 1970 || year > 9999 || month < 1 || month > 12 {
            return None;
        }
        let leap = (year % 4 == 0) && (year % 100 != 0 || year % 400 == 0);
        let dim: u8 = if month == 2 {
            if leap {
                29
            } else {
                28
            }
        } else if month == 4 || month == 6 || month == 9 || month == 11 {
            30
        } else {
            31
        };
        if day < 1 || day > dim {
            return None;
        }
        Some(Date { year, month, day })
    }

    /// Day number of this date, counted from 1970-01-01.
    pub fn epoch_days(&self) -> (r: u64)
        requires
            self.valid(),
        ensures
            r == spec_epoch_days(self.year as int, self.month as int, self.day as int),
            r <= 2932956,
    {
        let y: u64 = self.year as u64;
        let m: u64 = self.month as u64;
        let d: u64 = self.day as u64;
        let yy: u64 = if m <= 2 {
            y - 1
        } else {
            y
        };
        let era: u64 = yy / 400;
        let yoe: u64 = yy - era * 400;
        let mp: u64 = (m + 9) % 12;
        let doy: u64 = (153 * mp + 2) / 5 + d - 1;
        let doe: u64 = yoe * 365 + yoe / 4 - yoe / 100 + doy;
        proof {
            assert(1969 <= yy <= 9999);
            assert(4 <= era <= 24);
            assert(yoe <= 399);
            assert(mp <= 11);
            assert(doy <= 365);
            assert(doe <= 399 * 365 + 99 + 365);
            if era >= 5 {
                assert(era * 146097 + doe >= 5 * 146097);
            } else {
                assert(yy <= 1999);
                assert(yoe >= 369);
                if m <= 2 {
                    assert(mp == 10 || mp == 11);
                    assert(doy >= 306);
                    assert(doe >= 369 * 365 + 369int / 4 - 369int / 100 + 306);
                } else {
                    assert(yoe >= 370);
                    assert(doe >= 370 * 365 + 370int / 4 - 370int / 100);
                }
            }
        }
        era * 146097 + doe - 719468
    }
}

/// Reads a time-of-day out of one label's text and reconstructs the UTC
/// instant it names on the given date.
///
/// Every parsed hour is accepted, including the invalid hour 24 that the
/// `PM` rule produces from `"12:00 PM"`: the instant formula is applied
/// as written and such a label lands past the day's end instead of
/// failing (see [`spec_slot_instant`]).
pub fn slot_time_utc(text: &str, date: &Date) -> (r: Result<i64, Error>)
    requires
        date.valid(),
    ensures
        match r {
            Ok(t) => spec_hour_value(text@) matches Some(h) && t == spec_slot_instant(*date, h),
            Err(e) => {
                &&& spec_hour_value(text@) is None
                &&& e matches Error::CantFindElement(m) && m@ == "timeslot"@
            },
        },
{
    match parse_hour(text) {
        Ok(h) => {
            let days = date.epoch_days();
            let secs: i64 = (days as i64) * 86400 + (h as i64) * 3600 - 28800;
            Ok(secs)
        },
        Err(e) => Err(e),
    }
}

/// A raw time-of-day label as found on the page, paired with the date it
/// belongs to; the string is checked only when an instant is asked for.
#[derive(Debug, Clone)]
pub struct ActiveSgDatetime {
    pub unchecked_string: String,
    pub date: Date,
}

impl ActiveSgDatetime {
    /// Pairs a label's text with the target date (taken at its midnight).
    pub fn new(unchecked_string: String, date: Date) -> (r: Self)
        ensures
            r.unchecked_string == unchecked_string,
            r.date == date,
    {
        ActiveSgDatetime { unchecked_string, date }
    }

    /// The UTC instant this label names, if its text carries a time.
    pub fn to_utc(&self) -> (r: Result<i64, Error>)
        requires
            self.date.valid(),
        ensures
            match r {
                Ok(t) => spec_hour_value(self.unchecked_string@) matches Some(h) && t
                    == spec_slot_instant(self.date, h),
                Err(e) => {
                    &&& spec_hour_value(self.unchecked_string@) is None
                    &&& e matches Error::CantFindElement(m) && m@ == "timeslot"@
                },
            },
    {
        slot_time_utc(self.unchecked_string.as_str(), &self.date)
    }
}

} // verus!
