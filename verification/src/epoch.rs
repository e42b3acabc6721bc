//! # Epochs and calendar arithmetic
//!
//! GNSS time scales are anchored to calendar epochs. This module provides
//! [`CivilDate`], a proleptic Gregorian date without time of day, the epochs
//! of the supported scales and the day/second/nanosecond offsets between them.
//!
//! | Scale   | Epoch (UTC)                      | TAI − UTC |
//! |---------|----------------------------------|-----------|
//! | GLONASS | 1996-01-01 00:00:00 UTC(SU)      | 30 s      |
//! | GPS     | 1980-01-06 00:00:00 UTC          | 19 s      |
//! | Galileo | 1999-08-22 00:00:00 UTC          | 32 s      |
//! | BeiDou  | 2006-01-01 00:00:00 UTC          | 33 s      |
//! | TAI     | 1958-01-01 00:00:00 (definition) | —         |
//! | Unix    | 1970-01-01 00:00:00 UTC          | 10 s      |
//! | UTC     | 1972-01-01 00:00:00 UTC          | 10 s      |
//!
//! The numeric offsets below are written as literals; [`lemma_epoch_offsets`]
//! proves each of them equal to the calendar arithmetic it stands for.

use vstd::prelude::*;

use crate::arith::lemma_div_shift;

verus! {

/// Days from 1970-01-01 to the given proleptic Gregorian date.
///
/// March-based years put the leap day at the end of the year; the count is
/// `365·y + ⌊y/4⌋ − ⌊y/100⌋ + ⌊y/400⌋` whole years plus the days of the
/// shifted year before the given month and day.
pub open spec fn days_from_civil(year: int, month: int, day: int) -> int {
    let y = if month <= 2 { year - 1 } else { year };
    let m = if month <= 2 { month + 9 } else { month - 3 };
    365 * y + y / 4 - y / 100 + y / 400 + (153 * m + 2) / 5 + day - 1 - 719_468
}

/// Proleptic Gregorian calendar date (no time of day, no validation).
#[derive(Debug, Copy, Clone, Eq, PartialEq, Hash)]
pub struct CivilDate {
    /// Year (e.g. 1980).
    pub year: i32,
    /// Month (1–12).
    pub month: u8,
    /// Day of month (1–31).
    pub day: u8,
}

/// Whole 400-year eras added to a year so that every `i32` year becomes
/// non-negative before dividing.
const SHIFT_ERAS: i64 = 5_368_710;

/// Days from 1970-01-01 to `year-month-day` (Howard Hinnant's
/// `days_from_civil`, computed on a year shifted into the non-negative range).
pub(crate) fn days_from_civil_exec(year: i32, month: u8, day: u8) -> (r: i64)
    ensures
        r == days_from_civil(year as int, month as int, day as int),
{
    let y: i64 = if month <= 2 { year as i64 - 1 } else { year as i64 };
    let m: i64 = if month <= 2 { month as i64 + 9 } else { month as i64 - 3 };
    let ys: i64 = y + 400 * SHIFT_ERAS;
    let doy: i64 = (153 * m + 2) / 5 + day as i64 - 1;
    let whole: i64 = 365 * ys + ys / 4 - ys / 100 + ys / 400;
    proof {
        let k = SHIFT_ERAS as int;
        lemma_div_shift(y as int, 100 * k, 4);
        lemma_div_shift(y as int, 4 * k, 100);
        lemma_div_shift(y as int, k, 400);
    }
    whole - 146_097 * SHIFT_ERAS + doy - 719_468
}

impl CivilDate {
    /// Creates a calendar date. No validation is performed.
    pub fn new(year: i32, month: u8, day: u8) -> (r: Self)
        ensures
            r == (CivilDate { year, month, day }),
    {
        CivilDate { year, month, day }
    }

    /// Days since 1970-01-01 (negative before it).
    pub open spec fn spec_days_from_unix(self) -> int {
        days_from_civil(self.year as int, self.month as int, self.day as int)
    }

    /// Days since the Unix epoch (1970-01-01); negative before it.
    pub fn days_from_unix(self) -> (r: i64)
        ensures
            r == self.spec_days_from_unix(),
    {
        days_from_civil_exec(self.year, self.month, self.day)
    }

    /// Signed difference in days, `other − self`.
    pub fn days_until(self, other: CivilDate) -> (r: i64)
        ensures
            r == other.spec_days_from_unix() - self.spec_days_from_unix(),
    {
        other.days_from_unix() - self.days_from_unix()
    }

    /// Difference in whole seconds (time of day is not considered).
    pub fn seconds_until(self, other: CivilDate) -> (r: i64)
        ensures
            r == (other.spec_days_from_unix() - self.spec_days_from_unix()) * 86_400,
    {
        self.days_until(other) * 86_400
    }

    /// Difference in nanoseconds (time of day is not considered).
    ///
    /// Dates about 292 years apart or more do not fit into an `i64`.
    pub fn nanos_until(self, other: CivilDate) -> (r: i64)
        requires
            i64::MIN <= (other.spec_days_from_unix() - self.spec_days_from_unix()) * 86_400
                * 1_000_000_000 <= i64::MAX,
        ensures
            r == (other.spec_days_from_unix() - self.spec_days_from_unix()) * 86_400
                * 1_000_000_000,
    {
        self.seconds_until(other) * 1_000_000_000
    }

    /// The date as ISO 8601 text, `YYYY-MM-DD`.
    pub fn to_string(&self) -> (r: String)
        ensures
            r@ == crate::text::date_text(self.year as int, self.month as int, self.day as int),
    {
        let mut s = String::new();
        crate::text::push_date(&mut s, self.year, self.month, self.day);
        s
    }
}

/// TAI epoch (1958-01-01).
pub fn tai_epoch() -> (r: CivilDate)
    ensures
        r == (CivilDate { year: 1958, month: 1, day: 1 }),
{
    CivilDate::new(1958, 1, 1)
}

/// Unix epoch (1970-01-01).
pub fn unix_epoch() -> (r: CivilDate)
    ensures
        r == (CivilDate { year: 1970, month: 1, day: 1 }),
{
    CivilDate::new(1970, 1, 1)
}

/// UTC epoch (1972-01-01): nanoseconds of `Time<Utc>` count from here.
pub fn utc_civil_epoch() -> (r: CivilDate)
    ensures
        r == (CivilDate { year: 1972, month: 1, day: 1 }),
{
    CivilDate::new(1972, 1, 1)
}

/// GPS epoch (1980-01-06).
pub fn gps_epoch() -> (r: CivilDate)
    ensures
        r == (CivilDate { year: 1980, month: 1, day: 6 }),
{
    CivilDate::new(1980, 1, 6)
}

/// GLONASS epoch (1996-01-01 UTC(SU)).
pub fn glonass_epoch() -> (r: CivilDate)
    ensures
        r == (CivilDate { year: 1996, month: 1, day: 1 }),
{
    CivilDate::new(1996, 1, 1)
}

/// Galileo epoch (1999-08-22).
pub fn galileo_epoch() -> (r: CivilDate)
    ensures
        r == (CivilDate { year: 1999, month: 8, day: 22 }),
{
    CivilDate::new(1999, 8, 22)
}

/// BeiDou epoch (2006-01-01).
pub fn beidou_epoch() -> (r: CivilDate)
    ensures
        r == (CivilDate { year: 2006, month: 1, day: 1 }),
{
    CivilDate::new(2006, 1, 1)
}

/// Seconds from the Unix epoch (1970-01-01) to the UTC epoch (1972-01-01):
/// 730 days.
pub const UTC_EPOCH_UNIX_OFFSET_S: i64 = 63_072_000;

/// Nanoseconds from the Unix epoch to the UTC epoch.
pub const UTC_EPOCH_UNIX_OFFSET_NS: i64 = 63_072_000_000_000_000;

/// Seconds from the Unix epoch to the GPS epoch (1980-01-06): 3 657 days.
pub const GPS_EPOCH_UNIX_S: i64 = 315_964_800;

/// TAI − UTC at the GPS epoch.
pub const LEAP_SECONDS_AT_GPS_EPOCH: i64 = 19;

/// TAI − UTC at the GLONASS epoch.
pub const LEAP_SECONDS_AT_GLONASS_EPOCH: i64 = 30;

/// TAI − UTC at the Galileo epoch.
pub const LEAP_SECONDS_AT_GALILEO_EPOCH: i64 = 32;

/// TAI − UTC at the BeiDou epoch.
pub const LEAP_SECONDS_AT_BEIDOU_EPOCH: i64 = 33;

/// Days between the GPS and Galileo epochs.
pub const DAYS_GPS_TO_GALILEO: i64 = 7_168;

/// Days between the GPS and BeiDou epochs.
pub const DAYS_GPS_TO_BEIDOU: i64 = 9_492;

/// Days between the GPS and GLONASS epochs.
pub const DAYS_GPS_TO_GLONASS: i64 = 5_839;

/// Days between the Unix and GPS epochs.
pub const DAYS_UNIX_TO_GPS: i64 = 3_657;

/// Nanoseconds between the GPS and Galileo epochs.
pub const NANOS_GPS_TO_GALILEO_EPOCH: i64 = 619_315_200_000_000_000;

/// Nanoseconds between the GPS and BeiDou epochs (calendar only).
pub const NANOS_GPS_TO_BEIDOU_EPOCH_CALENDAR: i64 = 820_108_800_000_000_000;

/// Each epoch offset constant equals the calendar arithmetic it names.
pub proof fn lemma_epoch_offsets()
    ensures
        days_from_civil(1970, 1, 1) == 0,
        UTC_EPOCH_UNIX_OFFSET_S == (days_from_civil(1972, 1, 1) - days_from_civil(1970, 1, 1))
            * 86_400,
        UTC_EPOCH_UNIX_OFFSET_NS == UTC_EPOCH_UNIX_OFFSET_S * 1_000_000_000,
        GPS_EPOCH_UNIX_S == (days_from_civil(1980, 1, 6) - days_from_civil(1970, 1, 1)) * 86_400,
        DAYS_UNIX_TO_GPS == days_from_civil(1980, 1, 6) - days_from_civil(1970, 1, 1),
        DAYS_GPS_TO_GALILEO == days_from_civil(1999, 8, 22) - days_from_civil(1980, 1, 6),
        DAYS_GPS_TO_BEIDOU == days_from_civil(2006, 1, 1) - days_from_civil(1980, 1, 6),
        DAYS_GPS_TO_GLONASS == days_from_civil(1996, 1, 1) - days_from_civil(1980, 1, 6),
        NANOS_GPS_TO_GALILEO_EPOCH == DAYS_GPS_TO_GALILEO * 86_400 * 1_000_000_000,
        NANOS_GPS_TO_BEIDOU_EPOCH_CALENDAR == DAYS_GPS_TO_BEIDOU * 86_400 * 1_000_000_000,
{
}

} // verus!
