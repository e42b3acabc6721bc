//! # Civil date-time representation
//!
//! [`CivilDateTime`] is a proleptic Gregorian date and time of day derived
//! from a `Time<Utc>` value, with nanosecond precision. Its text form is
//! ISO 8601 / RFC 3339: `2024-01-15T12:34:56.123456789Z`.
//!
//! `Time<Utc>` counts nanoseconds from 1972-01-01 00:00:00 UTC, so dates
//! before 1972 cannot be represented. The conversion from nanoseconds to a
//! civil date-time and back is lossless ([`lemma_civil_roundtrip`]).

use vstd::prelude::*;
use vstd::arithmetic::div_mod::lemma_fundamental_div_mod;

use crate::epoch::{days_from_civil, days_from_civil_exec};
use crate::error::GnssTimeError;
use crate::scale::Utc;
use crate::text::{
    ascii_bytes, dec_pad, digits_value, lemma_dec_pad_value, pow10, push_dec_pad, push_signed_pad,
    signed_pad,
};
use crate::time::{checked_u64, time_result, Time, NANOS_PER_DAY};

verus! {

/// Nanoseconds per hour.
pub const NANOS_PER_HOUR: u64 = 3_600_000_000_000;

/// Nanoseconds per minute.
pub const NANOS_PER_MINUTE: u64 = 60_000_000_000;

/// Days from the Unix epoch (1970-01-01) to the UTC epoch (1972-01-01).
const UTC_EPOCH_DAYS_FROM_UNIX: i64 = 730;

/// `y` is a Gregorian leap year.
pub open spec fn is_leap_year(y: int) -> bool {
    y % 4 == 0 && (y % 100 != 0 || y % 400 == 0)
}

/// Number of days of month `m` in year `y`.
pub open spec fn days_in_month(y: int, m: int) -> int {
    if m == 2 {
        if is_leap_year(y) {
            29
        } else {
            28
        }
    } else if m == 4 || m == 6 || m == 9 || m == 11 {
        30
    } else {
        31
    }
}

/// `y-m-d` is a real calendar date.
pub open spec fn valid_date(y: int, m: int, d: int) -> bool {
    1 <= m <= 12 && 1 <= d <= days_in_month(y, m)
}

/// A proleptic Gregorian calendar date and time of day in UTC.
#[derive(Debug, Clone, Copy, PartialEq, Eq, Hash)]
pub struct CivilDateTime {
    /// Calendar year (e.g. 2024).
    pub year: i32,
    /// Calendar month (1–12).
    pub month: u8,
    /// Day of month (1–31).
    pub day: u8,
    /// Hour of day (0–23).
    pub hour: u8,
    /// Minute of hour (0–59).
    pub minute: u8,
    /// Second of minute (0–59); a leap second (60) is not representable.
    pub second: u8,
    /// Sub-second nanoseconds (0–999 999 999).
    pub nanos: u32,
}

/// Nanoseconds since the UTC epoch that date-time `c` stands for.
pub open spec fn civil_nanos(c: CivilDateTime) -> int {
    (days_from_civil(c.year as int, c.month as int, c.day as int) - 730) * NANOS_PER_DAY
        + c.hour * NANOS_PER_HOUR + c.minute * NANOS_PER_MINUTE + c.second * 1_000_000_000
        + c.nanos
}

/// `c` is the civil form of `n` nanoseconds since the UTC epoch: the valid
/// date of day `n / 1 day`, and the hour, minute, second and nanoseconds of
/// the remainder.
pub open spec fn is_civil_of(c: CivilDateTime, n: u64) -> bool {
    let rem = n % NANOS_PER_DAY;
    &&& days_from_civil(c.year as int, c.month as int, c.day as int) == n / NANOS_PER_DAY + 730
    &&& valid_date(c.year as int, c.month as int, c.day as int)
    &&& c.hour == rem / NANOS_PER_HOUR
    &&& c.minute == (rem % NANOS_PER_HOUR) / NANOS_PER_MINUTE
    &&& c.second == (rem % NANOS_PER_MINUTE) / 1_000_000_000
    &&& c.nanos == rem % 1_000_000_000
}

/// `y/4 − (y−1)/4` is one exactly when `y` is a multiple of 4 (and the same
/// for 100 and 400).
proof fn lemma_div_step(y: int, k: int)
    requires
        k > 0,
    ensures
        y / k - (y - 1) / k == (if y % k == 0 {
            1int
        } else {
            0int
        }),
{
    lemma_fundamental_div_mod(y, k);
    let q = y / k;
    let r = y % k;
    if r == 0 {
        assert((q - 1) * k + (k - 1) == y - 1) by (nonlinear_arith)
            requires
                y == k * q + r,
                r == 0,
        ;
        crate::arith::lemma_div_mod_of(y - 1, q - 1, k - 1, k);
    } else {
        assert(q * k + (r - 1) == y - 1) by (nonlinear_arith)
            requires
                y == k * q + r,
        ;
        crate::arith::lemma_div_mod_of(y - 1, q, r - 1, k);
    }
}

/// A year has 365 days, 366 in a leap year.
proof fn lemma_year_length(y: int)
    ensures
        days_from_civil(y + 1, 1, 1) - days_from_civil(y, 1, 1) == (if is_leap_year(y) {
            366int
        } else {
            365int
        }),
{
    lemma_div_step(y, 4);
    lemma_div_step(y, 100);
    lemma_div_step(y, 400);
    lemma_fundamental_div_mod(y, 400);
    lemma_fundamental_div_mod(y, 100);
    lemma_fundamental_div_mod(y, 4);
    if y % 400 == 0 {
        assert(y % 100 == 0 && y % 4 == 0) by {
            crate::arith::lemma_div_mod_of(y, (y / 400) * 4, 0, 100);
            crate::arith::lemma_div_mod_of(y, (y / 400) * 100, 0, 4);
        }
    }
    if y % 100 == 0 {
        assert(y % 4 == 0) by {
            crate::arith::lemma_div_mod_of(y, (y / 100) * 25, 0, 4);
        }
    }
}

/// Consecutive months are `days_in_month` apart.
proof fn lemma_month_length(y: int, m: int)
    requires
        1 <= m <= 11,
    ensures
        days_from_civil(y, m + 1, 1) - days_from_civil(y, m, 1) == days_in_month(y, m),
{
    if m == 2 {
        lemma_year_length(y - 1);
        assert(days_from_civil(y, 1, 1) == days_from_civil(y - 1, 1, 1) + (days_from_civil(y, 1, 1)
            - days_from_civil(y - 1, 1, 1)));
    }
}

/// December has 31 days.
proof fn lemma_december(y: int)
    ensures
        days_from_civil(y + 1, 1, 1) - days_from_civil(y, 12, 1) == 31,
{
}

/// Days of `y-m-d` counted from the first of the month.
proof fn lemma_day_offset(y: int, m: int, d: int)
    ensures
        days_from_civil(y, m, d) == days_from_civil(y, m, 1) + d - 1,
{
}

/// January 1st of year `y`, as days from the Unix epoch.
fn year_start(y: i32) -> (r: i64)
    ensures
        r == days_from_civil(y as int, 1, 1),
{
    days_from_civil_exec(y, 1, 1)
}

/// Days from 1970-01-01 to `year-month-day` (negative before it).
pub fn days_to_unix(year: i32, month: u8, day: u8) -> (r: i64)
    ensures
        r == days_from_civil(year as int, month as int, day as int),
{
    days_from_civil_exec(year, month, day)
}

/// The calendar date of day `z` counted from 1970-01-01 (negative before
/// it), for days whose year fits into `i32`.
pub fn civil_from_days(z: i64) -> (r: (i32, u8, u8))
    requires
        -700_000_000_000 <= z <= 700_000_000_000,
    ensures
        days_from_civil(r.0 as int, r.1 as int, r.2 as int) == z,
        valid_date(r.0 as int, r.1 as int, r.2 as int),
{
    // A year has 365 or 366 days, so this estimate is never past the year.
    let w: i64 = if z >= 0 {
        z / 366
    } else {
        -((364 - z) / 365)
    };
    proof {
        if z >= 0 {
            lemma_year_start_bound(w as int);
        } else {
            lemma_year_start_before(w as int);
        }
    }
    let mut y: i32 = (1970 + w) as i32;
    loop
        invariant
            1970 + w <= y <= 1970 + (if z >= 0 {
                z / 365
            } else {
                0
            }),
            days_from_civil(y as int, 1, 1) <= z,
            -700_000_000_000 <= z <= 700_000_000_000,
            w >= -2_000_000_000,
        ensures
            1970 + w <= y <= 1970 + (if z >= 0 {
                z / 365
            } else {
                0
            }),
            days_from_civil(y as int, 1, 1) <= z < days_from_civil(y as int + 1, 1, 1),
        decreases z - days_from_civil(y as int, 1, 1),
    {
        proof {
            lemma_year_length(y as int);
            if y + 1 >= 1970 {
                lemma_year_start_lower((y + 1 - 1970) as int);
            }
        }
        let next = year_start(y + 1);
        if next > z {
            break;
        }
        y = y + 1;
    }
    let mut m: u8 = 1;
    let mut start: i64 = year_start(y);
    loop
        invariant
            1 <= m <= 12,
            start == days_from_civil(y as int, m as int, 1),
            start <= z < days_from_civil(y as int + 1, 1, 1),
            -2_000_000_000 <= y <= 2_000_000_000,
            -700_000_000_000 <= z <= 700_000_000_000,
        ensures
            1 <= m <= 12,
            start == days_from_civil(y as int, m as int, 1),
            start <= z < days_from_civil(y as int + 1, 1, 1),
            m == 12 || z < days_from_civil(y as int, m as int + 1, 1),
        decreases 12 - m,
    {
        if m == 12 {
            break;
        }
        proof {
            lemma_month_length(y as int, m as int);
        }
        let next = days_from_civil_exec(y, m + 1, 1);
        if next > z {
            break;
        }
        m = m + 1;
        start = next;
    }
    proof {
        if m < 12 {
            lemma_month_length(y as int, m as int);
        } else {
            lemma_december(y as int);
        }
        lemma_day_offset(y as int, m as int, (z - start + 1) as int);
    }
    let d = (z - start + 1) as u8;
    (y, m, d)
}

/// Year `1970 + w`, `w ≤ 0`, starts no later than day `365 · w`.
proof fn lemma_year_start_before(w: int)
    requires
        w <= 0,
    ensures
        days_from_civil(1970 + w, 1, 1) <= 365 * w,
    decreases -w,
{
    if w < 0 {
        lemma_year_start_before(w + 1);
        lemma_year_length(1970 + w);
    }
}

/// Year `1970 + w` starts no later than day `366 · w`.
proof fn lemma_year_start_bound(w: int)
    requires
        w >= 0,
    ensures
        days_from_civil(1970 + w, 1, 1) <= 366 * w,
    decreases w,
{
    if w > 0 {
        lemma_year_start_bound(w - 1);
        lemma_year_length(1970 + w - 1);
    }
}

/// Year `1970 + w` starts no earlier than day `365 · w`.
proof fn lemma_year_start_lower(w: int)
    requires
        w >= 0,
    ensures
        days_from_civil(1970 + w, 1, 1) >= 365 * w,
    decreases w,
{
    if w > 0 {
        lemma_year_start_lower(w - 1);
        lemma_year_length(1970 + w - 1);
    }
}


/// The ISO 8601 text of `c`: `YYYY-MM-DDTHH:MM:SS.NNNNNNNNNZ`.
pub open spec fn civil_text(c: CivilDateTime) -> Seq<char> {
    crate::text::date_text(c.year as int, c.month as int, c.day as int) + seq!['T'] + dec_pad(
        c.hour as nat,
        2,
    ) + seq![':'] + dec_pad(c.minute as nat, 2) + seq![':'] + dec_pad(c.second as nat, 2) + seq![
        '.',
    ] + dec_pad(c.nanos as nat, 9) + seq!['Z']
}

impl CivilDateTime {
    /// The civil date-time `nanos` nanoseconds after the UTC epoch
    /// (1972-01-01 00:00:00 UTC); the inverse of
    /// [`to_utc_nanos`](Self::to_utc_nanos).
    pub fn from_utc_nanos(nanos: u64) -> (r: Self)
        ensures
            is_civil_of(r, nanos),
    {
        let days_from_utc_epoch = nanos / NANOS_PER_DAY;
        let day_rem = nanos % NANOS_PER_DAY;
        let days_from_unix = days_from_utc_epoch as i64 + UTC_EPOCH_DAYS_FROM_UNIX;
        let (year, month, day) = civil_from_days(days_from_unix);
        CivilDateTime {
            year,
            month,
            day,
            hour: (day_rem / NANOS_PER_HOUR) as u8,
            minute: ((day_rem % NANOS_PER_HOUR) / NANOS_PER_MINUTE) as u8,
            second: ((day_rem % NANOS_PER_MINUTE) / 1_000_000_000) as u8,
            nanos: (day_rem % 1_000_000_000) as u32,
        }
    }

    /// Nanoseconds since the UTC epoch; the inverse of
    /// [`from_utc_nanos`](Self::from_utc_nanos). The date-time must lie
    /// between the UTC epoch and the end of the `u64` range.
    pub fn to_utc_nanos(self) -> (r: u64)
        requires
            0 <= civil_nanos(self) <= u64::MAX,
        ensures
            r == civil_nanos(self),
    {
        let total = utc_nanos_wide(self);
        total as u64
    }

    /// Converts to a [`Time<Utc>`]; [`GnssTimeError::Overflow`] if the date
    /// is before 1972 or the nanosecond count does not fit into `u64`.
    pub fn to_utc(self) -> (r: Result<Time<Utc>, GnssTimeError>)
        ensures
            time_result(r) == (if self.year < 1972 {
                Err(GnssTimeError::Overflow)
            } else {
                checked_u64(civil_nanos(self))
            }),
    {
        if self.year < 1972 {
            return Err(GnssTimeError::Overflow);
        }
        if self.year == 1972 && self.month == 1 && self.day == 1 && self.hour == 0 && self.minute
            == 0 && self.second == 0 && self.nanos == 0 {
            return Ok(Time::<Utc>::epoch());
        }
        let total = utc_nanos_wide(self);
        if total < 0 || total > u64::MAX as i128 {
            return Err(GnssTimeError::Overflow);
        }
        Ok(Time::<Utc>::from_nanos(total as u64))
    }

    /// `true` if the sub-second part is zero.
    pub fn is_whole_second(&self) -> (r: bool)
        ensures
            r == (self.nanos == 0),
    {
        self.nanos == 0
    }

    /// ISO 8601 / RFC 3339 text with nanosecond precision, e.g.
    /// `2024-01-15T12:34:56.123456789Z`.
    pub fn to_string(&self) -> (r: String)
        ensures
            r@ == civil_text(*self),
    {
        let mut s = String::new();
        proof {
            reveal_strlit("T");
            reveal_strlit(":");
            reveal_strlit(".");
            reveal_strlit("Z");
        }
        crate::text::push_date(&mut s, self.year, self.month, self.day);
        s.append("T");
        push_dec_pad(&mut s, self.hour as u64, 2);
        s.append(":");
        push_dec_pad(&mut s, self.minute as u64, 2);
        s.append(":");
        push_dec_pad(&mut s, self.second as u64, 2);
        s.append(".");
        push_dec_pad(&mut s, self.nanos as u64, 9);
        s.append("Z");
        assert(s@ =~= civil_text(*self));
        s
    }
}

/// Nanoseconds since the UTC epoch of `c`, computed without overflow.
fn utc_nanos_wide(c: CivilDateTime) -> (r: i128)
    ensures
        r == civil_nanos(c),
{
    let days = days_from_civil_exec(c.year, c.month, c.day) - UTC_EPOCH_DAYS_FROM_UNIX;
    assert(-1_000_000_000_000 <= days <= 1_000_000_000_000);
    let day_ns: i128 = (days as i128) * 86_400_000_000_000;
    let time_ns: i128 = (c.hour as i128) * 3_600_000_000_000 + (c.minute as i128) * 60_000_000_000
        + (c.second as i128) * 1_000_000_000 + (c.nanos as i128);
    day_ns + time_ns
}

impl Time<Utc> {
    /// The civil date-time of this UTC instant.
    pub fn to_civil(self) -> (r: CivilDateTime)
        ensures
            is_civil_of(r, self@),
    {
        CivilDateTime::from_utc_nanos(self.as_nanos())
    }
}

/// Nanoseconds → civil date-time → nanoseconds gives the count back.
pub proof fn lemma_civil_roundtrip(n: u64, c: CivilDateTime)
    requires
        is_civil_of(c, n),
    ensures
        civil_nanos(c) == n,
{
    let rem = n % NANOS_PER_DAY;
    lemma_fundamental_div_mod(n as int, NANOS_PER_DAY as int);
    lemma_fundamental_div_mod(rem as int, NANOS_PER_HOUR as int);
    lemma_fundamental_div_mod((rem % NANOS_PER_HOUR) as int, NANOS_PER_MINUTE as int);
    lemma_fundamental_div_mod((rem % NANOS_PER_MINUTE) as int, 1_000_000_000);
    assert((rem % NANOS_PER_HOUR) % NANOS_PER_MINUTE == rem % NANOS_PER_MINUTE);
    assert((rem % NANOS_PER_MINUTE) % 1_000_000_000 == rem % 1_000_000_000);
}


/// Years start later and later.
proof fn lemma_year_start_mono(y1: int, y2: int)
    requires
        y1 <= y2,
    ensures
        days_from_civil(y1, 1, 1) <= days_from_civil(y2, 1, 1),
    decreases y2 - y1,
{
    if y1 < y2 {
        lemma_year_start_mono(y1, y2 - 1);
        lemma_year_length(y2 - 1);
    }
}

/// Month `m` starts no earlier than month `k <= m` of the same year.
proof fn lemma_month_start_mono(y: int, k: int, m: int)
    requires
        1 <= k <= m <= 12,
    ensures
        days_from_civil(y, k, 1) <= days_from_civil(y, m, 1),
    decreases m - k,
{
    if k < m {
        lemma_month_start_mono(y, k, m - 1);
        lemma_month_length(y, m - 1);
    }
}

/// Month `m` ends no later than the year.
proof fn lemma_month_end(y: int, m: int)
    requires
        1 <= m <= 12,
    ensures
        days_from_civil(y, m, 1) + days_in_month(y, m) <= days_from_civil(y + 1, 1, 1),
    decreases 12 - m,
{
    if m == 12 {
        lemma_december(y);
    } else {
        lemma_month_end(y, m + 1);
        lemma_month_length(y, m);
    }
}

/// Distinct valid dates have distinct day numbers.
pub proof fn lemma_valid_date_unique(y1: int, m1: int, d1: int, y2: int, m2: int, d2: int)
    requires
        valid_date(y1, m1, d1),
        valid_date(y2, m2, d2),
        days_from_civil(y1, m1, d1) == days_from_civil(y2, m2, d2),
    ensures
        y1 == y2,
        m1 == m2,
        d1 == d2,
{
    lemma_day_offset(y1, m1, d1);
    lemma_day_offset(y2, m2, d2);
    lemma_month_start_mono(y1, 1, m1);
    lemma_month_start_mono(y2, 1, m2);
    lemma_month_end(y1, m1);
    lemma_month_end(y2, m2);
    if y1 < y2 {
        lemma_year_start_mono(y1 + 1, y2);
    } else if y2 < y1 {
        lemma_year_start_mono(y2 + 1, y1);
    }
    if m1 < m2 {
        lemma_month_end(y1, m1);
        if m1 < 11 {
            lemma_month_start_mono(y1, m1 + 1, m2);
        }
        lemma_month_length(y1, m1);
    } else if m2 < m1 {
        lemma_month_start_mono(y1, m2 + 1, m1);
        lemma_month_length(y1, m2);
    }
}

/// A date-time with a valid date and time of day.
pub open spec fn valid_civil(c: CivilDateTime) -> bool {
    &&& valid_date(c.year as int, c.month as int, c.day as int)
    &&& c.hour < 24
    &&& c.minute < 60
    &&& c.second < 60
    &&& c.nanos < 1_000_000_000
}

/// The civil form of an instant is unique, and every valid date-time from
/// the UTC epoch on that fits the range is the civil form of its own
/// nanosecond count: civil date-time → nanoseconds → civil date-time gives
/// it back.
pub proof fn lemma_civil_unique(c: CivilDateTime, n: u64)
    requires
        valid_civil(c),
        civil_nanos(c) == n,
    ensures
        is_civil_of(c, n),
        forall|c2: CivilDateTime| #[trigger] is_civil_of(c2, n) ==> c2 == c,
{
    let day = days_from_civil(c.year as int, c.month as int, c.day as int) - 730;
    let tod = c.hour * NANOS_PER_HOUR + c.minute * NANOS_PER_MINUTE + c.second * 1_000_000_000
        + c.nanos;
    assert(0 <= tod < NANOS_PER_DAY);
    crate::arith::lemma_div_mod_of(n as int, day, tod, NANOS_PER_DAY as int);
    let r1 = c.minute * NANOS_PER_MINUTE + c.second * 1_000_000_000 + c.nanos;
    crate::arith::lemma_div_mod_of(tod, c.hour as int, r1, NANOS_PER_HOUR as int);
    let r2 = c.second * 1_000_000_000 + c.nanos;
    crate::arith::lemma_div_mod_of(r1, c.minute as int, r2, NANOS_PER_MINUTE as int);
    crate::arith::lemma_div_mod_of(r2, c.second as int, c.nanos as int, 1_000_000_000);
    crate::arith::lemma_div_shift(r2, c.hour * 60 + c.minute, NANOS_PER_MINUTE as int);
    assert(tod == r2 + (c.hour * 60 + c.minute) * NANOS_PER_MINUTE);
    assert forall|c2: CivilDateTime| #[trigger] is_civil_of(c2, n) implies c2 == c by {
        lemma_valid_date_unique(
            c2.year as int,
            c2.month as int,
            c2.day as int,
            c.year as int,
            c.month as int,
            c.day as int,
        );
    }
}


/// The number written in `t` at positions `i .. i + w`.
pub open spec fn field_at(t: Seq<char>, i: int, w: int) -> nat {
    digits_value(ascii_bytes(t.subrange(i, i + w)))
}

/// The ISO 8601 text of a valid date-time of a four-digit year is 30
/// characters long and holds each field in its place: the year at 0..4,
/// the month at 5..7, the day at 8..10, the hour at 11..13, the minute at
/// 14..16, the second at 17..19 and the nanoseconds at 20..29, separated by
/// `-`, `-`, `T`, `:`, `:`, `.` and ended by `Z`. Reading the fields back
/// gives the date-time, so different date-times have different texts.
pub proof fn lemma_civil_text_fields(c: CivilDateTime)
    requires
        valid_civil(c),
        0 <= c.year <= 9999,
    ensures
        civil_text(c).len() == 30,
        field_at(civil_text(c), 0, 4) == c.year,
        civil_text(c)[4] == '-',
        field_at(civil_text(c), 5, 2) == c.month,
        civil_text(c)[7] == '-',
        field_at(civil_text(c), 8, 2) == c.day,
        civil_text(c)[10] == 'T',
        field_at(civil_text(c), 11, 2) == c.hour,
        civil_text(c)[13] == ':',
        field_at(civil_text(c), 14, 2) == c.minute,
        civil_text(c)[16] == ':',
        field_at(civil_text(c), 17, 2) == c.second,
        civil_text(c)[19] == '.',
        field_at(civil_text(c), 20, 9) == c.nanos,
        civil_text(c)[29] == 'Z',
{
    reveal_with_fuel(pow10, 10);
    let y = dec_pad(c.year as nat, 4);
    let mo = dec_pad(c.month as nat, 2);
    let d = dec_pad(c.day as nat, 2);
    let h = dec_pad(c.hour as nat, 2);
    let mi = dec_pad(c.minute as nat, 2);
    let se = dec_pad(c.second as nat, 2);
    let n = dec_pad(c.nanos as nat, 9);
    lemma_dec_pad_value(c.year as nat, 4);
    lemma_dec_pad_value(c.month as nat, 2);
    lemma_dec_pad_value(c.day as nat, 2);
    lemma_dec_pad_value(c.hour as nat, 2);
    lemma_dec_pad_value(c.minute as nat, 2);
    lemma_dec_pad_value(c.second as nat, 2);
    lemma_dec_pad_value(c.nanos as nat, 9);
    let t = civil_text(c);
    assert(t =~= y + seq!['-'] + mo + seq!['-'] + d + seq!['T'] + h + seq![':'] + mi + seq![':']
        + se + seq!['.'] + n + seq!['Z']);
    assert(t.subrange(0, 4) =~= y);
    assert(t.subrange(5, 7) =~= mo);
    assert(t.subrange(8, 10) =~= d);
    assert(t.subrange(11, 13) =~= h);
    assert(t.subrange(14, 16) =~= mi);
    assert(t.subrange(17, 19) =~= se);
    assert(t.subrange(20, 29) =~= n);
}


/// Different valid date-times of four-digit years have different texts.
pub proof fn lemma_civil_text_injective(c1: CivilDateTime, c2: CivilDateTime)
    requires
        valid_civil(c1),
        valid_civil(c2),
        0 <= c1.year <= 9999,
        0 <= c2.year <= 9999,
        civil_text(c1) == civil_text(c2),
    ensures
        c1 == c2,
{
    lemma_civil_text_fields(c1);
    lemma_civil_text_fields(c2);
}

} // verus!
