//! Calendar timestamps and month arithmetic.
//!
//! A [`Timestamp`] is a plain UTC calendar date and time of day. The billing
//! logic needs only one operation on it: adding a number of whole months,
//! with the day of month clamped to the length of the target month. Dates
//! outside the supported year range are a recoverable condition, reported
//! as `None` by [`Timestamp::checked_add_months`].

use vstd::prelude::*;

verus! {

/// Earliest supported calendar year.
pub const MIN_YEAR: i32 = 1;
/// Latest supported calendar year.
pub const MAX_YEAR: i32 = 9999;

/// A UTC calendar date and time of day, in plain fields.
#[derive(Clone, Copy, Debug, PartialEq, Eq, Structural, Hash)]
pub struct Timestamp {
    pub year: i32,
    pub month: u8,
    pub day: u8,
    pub hour: u8,
    pub minute: u8,
    pub second: u8,
}

/// Whether `y` is a leap year in the proleptic Gregorian calendar.
pub open spec fn is_leap_year(y: int) -> bool {
    (y % 4 == 0 && y % 100 != 0) || y % 400 == 0
}

/// Number of days in month `m` of year `y` (months counted from 1).
pub open spec fn days_in_month(y: int, m: int) -> int {
    if m == 2 {
        if is_leap_year(y) {
            29
        } else {
            28
        }
    } else if m == 4 || m == 6 || m == 9 || m == 11 {
        30
    } else {
        31
    }
}

impl Timestamp {
    /// A well-formed timestamp: a real calendar date in the supported
    /// year range, with a valid time of day.
    pub open spec fn wf(self) -> bool {
        &&& MIN_YEAR <= self.year <= MAX_YEAR
        &&& 1 <= self.month <= 12
        &&& 1 <= self.day
        &&& self.day as int <= days_in_month(self.year as int, self.month as int)
        &&& self.hour < 24
        &&& self.minute < 60
        &&& self.second < 60
    }

    /// The timestamp `n` months after `self`: the month index advances by
    /// `n`, and the day of month is clamped to the length of the target
    /// month. `None` exactly when the target year lies beyond [`MAX_YEAR`].
    pub open spec fn add_months_spec(self, n: int) -> Option<Timestamp> {
        let total = self.year * 12 + (self.month - 1) + n;
        let y = total / 12;
        let m = total % 12 + 1;
        if y > MAX_YEAR {
            None
        } else {
            Some(
                Timestamp {
                    year: y as i32,
                    month: m as u8,
                    day: if self.day as int <= days_in_month(y, m) {
                        self.day
                    } else {
                        days_in_month(y, m) as u8
                    },
                    hour: self.hour,
                    minute: self.minute,
                    second: self.second,
                },
            )
        }
    }

    /// Returns the timestamp `months` months after `self`, with the day of
    /// month clamped to the target month's length, or `None` when the
    /// result would lie beyond the supported year range.
    pub fn checked_add_months(&self, months: u32) -> (r: Option<Timestamp>)
        requires
            self.wf(),
        ensures
            r == self.add_months_spec(months as int),
            r matches Some(t) ==> t.wf(),
    {
        let total: u64 = (self.year as u64) * 12 + (self.month as u64 - 1) + months as u64;
        let y: u64 = total / 12;
        let m0: u64 = total % 12;
        if y > MAX_YEAR as u64 {
            return None;
        }
        let year: i32 = y as i32;
        let month: u8 = (m0 + 1) as u8;
        let dim: u8 = month_length(year, month);
        let day: u8 = if self.day > dim {
            dim
        } else {
            self.day
        };
        Some(Timestamp { year, month, day, hour: self.hour, minute: self.minute, second: self.second })
    }
}

/// Relies on std's `SystemTime::now` and chrono's
/// `DateTime::from_timestamp` with the `Datelike`/`Timelike` accessors:
/// the fields returned are the current UTC year, month (1 to 12), day of
/// month (1 to the length of that month — a real calendar date), hour
/// (0 to 23), minute and second (0 to 59). A clock before 1970 or beyond
/// chrono's range falls back to the Unix epoch rather than aborting, so
/// every clock state returns a value meeting these bounds.
#[verifier::external_body]
fn utc_now_parts() -> (r: (i32, u8, u8, u8, u8, u8))
    ensures
        1 <= r.1 <= 12,
        1 <= r.2,
        r.2 as int <= days_in_month(r.0 as int, r.1 as int),
        r.3 < 24,
        r.4 < 60,
        r.5 < 60,
{
    let secs: i64 = match std::time::SystemTime::now().duration_since(std::time::UNIX_EPOCH) {
        Ok(d) => i64::try_from(d.as_secs()).unwrap_or(0),
        Err(_) => 0,
    };
    let now = chrono::DateTime::from_timestamp(secs, 0).unwrap_or(chrono::DateTime::UNIX_EPOCH);
    (
        chrono::Datelike::year(&now),
        chrono::Datelike::month(&now) as u8,
        chrono::Datelike::day(&now) as u8,
        chrono::Timelike::hour(&now) as u8,
        chrono::Timelike::minute(&now) as u8,
        chrono::Timelike::second(&now) as u8,
    )
}

/// Reads the system clock and returns the current UTC time as a well-formed
/// [`Timestamp`]. Should the clock lie outside the supported year range,
/// the result is pinned to the nearest supported instant.
pub fn now_timestamp() -> (r: Timestamp)
    ensures
        r.wf(),
{
    let (year, month, day, hour, minute, second) = utc_now_parts();
    if year < MIN_YEAR {
        Timestamp { year: MIN_YEAR, month: 1, day: 1, hour, minute, second }
    } else if year > MAX_YEAR {
        Timestamp { year: MAX_YEAR, month: 12, day: 31, hour, minute, second }
    } else {
        Timestamp { year, month, day, hour, minute, second }
    }
}

/// Whether `year` is a leap year; mirrors [`is_leap_year`].
pub fn leap_year(year: i32) -> (r: bool)
    requires
        year >= 0,
    ensures
        r == is_leap_year(year as int),
{
    (year % 4 == 0 && year % 100 != 0) || year % 400 == 0
}

/// Number of days in `month` of `year`; mirrors [`days_in_month`].
pub fn month_length(year: i32, month: u8) -> (r: u8)
    requires
        year >= 0,
    ensures
        r as int == days_in_month(year as int, month as int),
{
    if month == 2 {
        if leap_year(year) {
            29
        } else {
            28
        }
    } else if month == 4 || month == 6 || month == 9 || month == 11 {
        30
    } else {
        31
    }
}

} // verus!
