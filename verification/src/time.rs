//! # `Time<S>` — the core timestamp type
//!
//! Stores **nanoseconds since the epoch of scale `S`** in a `u64`. The
//! phantom `S: TimeScale` keeps time scales apart at compile time: a GPS
//! timestamp cannot be subtracted from a GLONASS timestamp.
//!
//! `u64::MAX` nanoseconds is about 584.5 years, so every scale can represent
//! instants up to the 26th century.
//!
//! All arithmetic is checked: `checked_*` returns `None`, `saturating_*`
//! clamps to [`Time::min_value`] / [`Time::max_value`], `try_*` returns
//! [`GnssTimeError::Overflow`], and the operators require the result to be
//! representable.

use core::marker::PhantomData;

use vstd::prelude::*;

use crate::arith::{i64_fits, u64_fits};
use crate::duration::Duration;
use crate::epoch::{UTC_EPOCH_UNIX_OFFSET_NS, UTC_EPOCH_UNIX_OFFSET_S};
use crate::error::GnssTimeError;
use crate::scale::{DisplayStyle, OffsetToTai, Tai, TimeScale};
use crate::text::{dec, dec_pad, push_dec, push_dec_pad};

verus! {

broadcast use crate::duration::Duration::lemma_spec_new;

/// A timestamp in time scale `S`: nanoseconds since the epoch of the scale.
#[derive(Debug, Copy, Eq, PartialEq, Hash, PartialOrd, Ord)]
pub struct Time<S: TimeScale> {
    nanos: u64,
    _scale: PhantomData<S>,
}

impl<S: TimeScale> Clone for Time<S> {
    fn clone(&self) -> (r: Self)
        ensures
            r == *self,
    {
        *self
    }
}

impl<S: TimeScale> View for Time<S> {
    type V = u64;

    /// Nanoseconds since the epoch of `S`.
    closed spec fn view(&self) -> u64 {
        self.nanos
    }
}

/// Split seconds into whole seconds and nanoseconds, used by the GNSS
/// week/day constructors.
#[derive(Debug, Clone, Copy, PartialEq, Eq, Hash)]
pub struct DurationParts {
    /// Whole seconds part (non-negative).
    pub seconds: u64,
    /// Nanosecond part, must be in `[0, 999_999_999]`.
    pub nanos: u32,
}

/// `x` as a `u64`, or [`GnssTimeError::Overflow`] when it is out of range.
pub open spec fn checked_u64(x: int) -> Result<u64, GnssTimeError> {
    if u64_fits(x) {
        Ok(x as u64)
    } else {
        Err(GnssTimeError::Overflow)
    }
}

/// `x` as a `u64`, or `None` when it is out of range.
pub open spec fn checked_u64_opt(x: int) -> Option<u64> {
    if u64_fits(x) {
        Some(x as u64)
    } else {
        None
    }
}

/// The nanosecond count of a fallible timestamp result.
pub open spec fn time_result<T: TimeScale>(r: Result<Time<T>, GnssTimeError>) -> Result<
    u64,
    GnssTimeError,
> {
    match r {
        Ok(t) => Ok(t@),
        Err(e) => Err(e),
    }
}

/// The nanosecond count of an optional timestamp.
pub open spec fn time_opt<T: TimeScale>(r: Option<Time<T>>) -> Option<u64> {
    match r {
        Some(t) => Some(t@),
        None => None,
    }
}

/// TAI nanoseconds of `n` nanoseconds in scale `S`, through the fixed offset.
pub open spec fn spec_to_tai<S: TimeScale>(n: int) -> Result<u64, GnssTimeError> {
    match S::spec_offset_to_tai() {
        OffsetToTai::Fixed(off) => checked_u64(n + off),
        OffsetToTai::Contextual => Err(GnssTimeError::LeapSecondsRequired),
    }
}

/// Nanoseconds in scale `S` of `n` TAI nanoseconds, through the fixed offset.
pub open spec fn spec_from_tai<S: TimeScale>(n: int) -> Result<u64, GnssTimeError> {
    match S::spec_offset_to_tai() {
        OffsetToTai::Fixed(off) => checked_u64(n - off),
        OffsetToTai::Contextual => Err(GnssTimeError::LeapSecondsRequired),
    }
}

/// Nanoseconds in scale `T` of `n` nanoseconds in scale `S`, via TAI.
pub open spec fn spec_convert<S: TimeScale, T: TimeScale>(n: int) -> Result<u64, GnssTimeError> {
    match spec_to_tai::<S>(n) {
        Ok(tai) => spec_from_tai::<T>(tai as int),
        Err(e) => Err(e),
    }
}

impl<S: TimeScale> Time<S> {
    /// The timestamp `n` nanoseconds after the epoch.
    pub closed spec fn spec_new(n: u64) -> Time<S> {
        Time { nanos: n, _scale: PhantomData }
    }

    /// The view of a constructed timestamp is its count.
    pub broadcast proof fn lemma_spec_new(n: u64)
        ensures
            #[trigger] Time::<S>::spec_new(n)@ == n,
    {
    }

    /// Two timestamps with the same count are equal.
    pub proof fn lemma_ext(a: Time<S>, b: Time<S>)
        requires
            a@ == b@,
        ensures
            a == b,
    {
    }

    /// The scale's epoch — 0 nanoseconds.
    pub fn epoch() -> (r: Self)
        ensures
            r@ == 0,
    {
        Time { nanos: 0, _scale: PhantomData }
    }

    /// Minimum representable value (the epoch).
    pub fn min_value() -> (r: Self)
        ensures
            r@ == 0,
    {
        Time { nanos: 0, _scale: PhantomData }
    }

    /// Maximum representable instant (`u64::MAX` nanoseconds).
    pub fn max_value() -> (r: Self)
        ensures
            r@ == u64::MAX,
    {
        Time { nanos: u64::MAX, _scale: PhantomData }
    }

    /// Nanoseconds per non-leap year (365 days).
    pub const NANOS_PER_YEAR: u64 = 31_536_000_000_000_000;

    /// Construct from raw nanoseconds since this scale's epoch.
    pub fn from_nanos(nanos: u64) -> (r: Self)
        ensures
            r@ == nanos,
    {
        Time { nanos, _scale: PhantomData }
    }

    /// Construct from whole seconds since this scale's epoch; the count of
    /// nanoseconds must fit into `u64`.
    pub fn from_seconds(secs: u64) -> (r: Self)
        requires
            secs * 1_000_000_000 <= u64::MAX,
        ensures
            r@ == secs * 1_000_000_000,
    {
        Time { nanos: secs * 1_000_000_000, _scale: PhantomData }
    }

    /// Construct from whole seconds, `None` when the count of nanoseconds
    /// does not fit into `u64`.
    pub fn checked_from_seconds(secs: u64) -> (r: Option<Self>)
        ensures
            time_opt(r) == checked_u64_opt(secs * 1_000_000_000),
    {
        match secs.checked_mul(1_000_000_000) {
            Some(n) => Some(Time::from_nanos(n)),
            None => None,
        }
    }

    /// Raw nanoseconds since this scale's epoch.
    pub fn as_nanos(self) -> (r: u64)
        ensures
            r == self@,
    {
        self.nanos
    }

    /// Whole seconds since this scale's epoch (truncated).
    pub fn as_seconds(self) -> (r: u64)
        ensures
            r == self@ / 1_000_000_000,
    {
        self.nanos / 1_000_000_000
    }

    /// Convert to TAI using the scale's fixed offset.
    ///
    /// [`GnssTimeError::LeapSecondsRequired`] for contextual scales (UTC,
    /// GLONASS), [`GnssTimeError::Overflow`] for out-of-range results.
    pub fn to_tai(self) -> (r: Result<Time<Tai>, GnssTimeError>)
        ensures
            time_result(r) == spec_to_tai::<S>(self@ as int),
    {
        match S::offset_to_tai() {
            OffsetToTai::Fixed(offset) => {
                let nanos = (self.nanos as i128) + (offset as i128);
                if nanos < 0 || nanos > u64::MAX as i128 {
                    return Err(GnssTimeError::Overflow);
                }
                Ok(Time::from_nanos(nanos as u64))
            },
            OffsetToTai::Contextual => Err(GnssTimeError::LeapSecondsRequired),
        }
    }

    /// Construct from a TAI timestamp using the scale's fixed offset.
    ///
    /// [`GnssTimeError::LeapSecondsRequired`] for contextual scales (UTC,
    /// GLONASS), [`GnssTimeError::Overflow`] for out-of-range results.
    pub fn from_tai(tai: Time<Tai>) -> (r: Result<Self, GnssTimeError>)
        ensures
            time_result(r) == spec_from_tai::<S>(tai@ as int),
    {
        match S::offset_to_tai() {
            OffsetToTai::Fixed(offset) => {
                let nanos = (tai.as_nanos() as i128) - (offset as i128);
                if nanos < 0 || nanos > u64::MAX as i128 {
                    return Err(GnssTimeError::Overflow);
                }
                Ok(Time::from_nanos(nanos as u64))
            },
            OffsetToTai::Contextual => Err(GnssTimeError::LeapSecondsRequired),
        }
    }

    /// Convert directly between two fixed-offset scales via TAI; fails if
    /// either scale needs leap seconds.
    pub fn try_convert<T: TimeScale>(self) -> (r: Result<Time<T>, GnssTimeError>)
        ensures
            time_result(r) == spec_convert::<S, T>(self@ as int),
    {
        match self.to_tai() {
            Ok(tai) => Time::<T>::from_tai(tai),
            Err(e) => Err(e),
        }
    }

    /// Add a `Duration`, `None` on overflow or underflow.
    pub fn checked_add(self, d: Duration) -> (r: Option<Self>)
        ensures
            time_opt(r) == checked_u64_opt(self@ + d@),
    {
        let result = (self.nanos as i128) + (d.as_nanos() as i128);
        if result < 0 || result > u64::MAX as i128 {
            return None;
        }
        Some(Time::from_nanos(result as u64))
    }

    /// Subtract a `Duration`, `None` on overflow or underflow.
    pub fn checked_sub_duration(self, d: Duration) -> (r: Option<Self>)
        ensures
            time_opt(r) == checked_u64_opt(self@ - d@),
    {
        let result = (self.nanos as i128) - (d.as_nanos() as i128);
        if result < 0 || result > u64::MAX as i128 {
            return None;
        }
        Some(Time::from_nanos(result as u64))
    }

    /// Add, saturating at the epoch (below) and at the maximum (above).
    pub fn saturating_add(self, d: Duration) -> (r: Self)
        ensures
            r@ == (if u64_fits(self@ + d@) {
                self@ + d@
            } else if d@ < 0 {
                0
            } else {
                u64::MAX as int
            }),
    {
        match self.checked_add(d) {
            Some(t) => t,
            None => if d.is_negative() {
                Time::epoch()
            } else {
                Time::max_value()
            },
        }
    }

    /// Subtract, saturating at the epoch (below) and at the maximum (above).
    pub fn saturating_sub_duration(self, d: Duration) -> (r: Self)
        ensures
            r@ == (if u64_fits(self@ - d@) {
                self@ - d@
            } else if d@ < 0 {
                u64::MAX as int
            } else {
                0
            }),
    {
        match self.checked_sub_duration(d) {
            Some(t) => t,
            None => if d.is_negative() {
                Time::max_value()
            } else {
                Time::epoch()
            },
        }
    }

    /// Fallible add — [`GnssTimeError::Overflow`] on failure.
    pub fn try_add(self, d: Duration) -> (r: Result<Self, GnssTimeError>)
        ensures
            time_result(r) == checked_u64(self@ + d@),
    {
        match self.checked_add(d) {
            Some(t) => Ok(t),
            None => Err(GnssTimeError::Overflow),
        }
    }

    /// Fallible subtract — [`GnssTimeError::Overflow`] on failure.
    pub fn try_sub_duration(self, d: Duration) -> (r: Result<Self, GnssTimeError>)
        ensures
            time_result(r) == checked_u64(self@ - d@),
    {
        match self.checked_sub_duration(d) {
            Some(t) => Ok(t),
            None => Err(GnssTimeError::Overflow),
        }
    }

    /// Signed interval `self − earlier`, `None` if it does not fit into `i64`.
    pub fn checked_elapsed(self, earlier: Time<S>) -> (r: Option<Duration>)
        ensures
            r == (if i64_fits(self@ - earlier@) {
                Some(Duration::spec_new((self@ - earlier@) as i64))
            } else {
                None::<Duration>
            }),
    {
        let diff = (self.nanos as i128) - (earlier.nanos as i128);
        if diff > i64::MAX as i128 || diff < i64::MIN as i128 {
            return None;
        }
        let d = Duration::from_nanos(diff as i64);
        proof {
            Duration::lemma_ext(d, Duration::spec_new(diff as i64));
        }
        Some(d)
    }
}

impl<S: TimeScale> core::ops::Add<Duration> for Time<S> {
    type Output = Time<S>;

    /// `self + rhs`; the result must be representable.
    fn add(self, rhs: Duration) -> (r: Time<S>) {
        let r = self.checked_add(rhs).unwrap();
        proof {
            Time::lemma_ext(r, Time::spec_new((self@ + rhs@) as u64));
        }
        r
    }
}

impl<S: TimeScale> vstd::std_specs::ops::AddSpecImpl<Duration> for Time<S> {
    open spec fn obeys_add_spec() -> bool {
        true
    }

    open spec fn add_req(self, rhs: Duration) -> bool {
        u64_fits(self@ + rhs@)
    }

    open spec fn add_spec(self, rhs: Duration) -> Time<S> {
        Time::spec_new((self@ + rhs@) as u64)
    }
}

impl<S: TimeScale> core::ops::Sub<Duration> for Time<S> {
    type Output = Time<S>;

    /// `self - rhs`; the result must be representable.
    fn sub(self, rhs: Duration) -> (r: Time<S>) {
        let r = self.checked_sub_duration(rhs).unwrap();
        proof {
            Time::lemma_ext(r, Time::spec_new((self@ - rhs@) as u64));
        }
        r
    }
}

impl<S: TimeScale> vstd::std_specs::ops::SubSpecImpl<Duration> for Time<S> {
    open spec fn obeys_sub_spec() -> bool {
        true
    }

    open spec fn sub_req(self, rhs: Duration) -> bool {
        u64_fits(self@ - rhs@)
    }

    open spec fn sub_spec(self, rhs: Duration) -> Time<S> {
        Time::spec_new((self@ - rhs@) as u64)
    }
}

impl<S: TimeScale> core::ops::Sub<Time<S>> for Time<S> {
    type Output = Duration;

    /// The interval `self - rhs`; it must fit into `i64` nanoseconds.
    fn sub(self, rhs: Time<S>) -> (r: Duration) {
        self.checked_elapsed(rhs).unwrap()
    }
}

impl<S: TimeScale> vstd::std_specs::ops::SubSpecImpl<Time<S>> for Time<S> {
    open spec fn obeys_sub_spec() -> bool {
        true
    }

    open spec fn sub_req(self, rhs: Time<S>) -> bool {
        i64_fits(self@ - rhs@)
    }

    open spec fn sub_spec(self, rhs: Time<S>) -> Duration {
        Duration::spec_new((self@ - rhs@) as i64)
    }
}

impl<S: TimeScale> core::ops::AddAssign<Duration> for Time<S> {
    /// `*self = *self + rhs`; the result must be representable.
    fn add_assign(&mut self, rhs: Duration)
        requires
            u64_fits(old(self)@ + rhs@),
        ensures
            final(self)@ == old(self)@ + rhs@,
    {
        *self = *self + rhs;
    }
}

impl<S: TimeScale> core::ops::SubAssign<Duration> for Time<S> {
    /// `*self = *self - rhs`; the result must be representable.
    fn sub_assign(&mut self, rhs: Duration)
        requires
            u64_fits(old(self)@ - rhs@),
        ensures
            final(self)@ == old(self)@ - rhs@,
    {
        *self = *self - rhs;
    }
}

/// Message for a nanosecond part of one second or more.
pub const MSG_PARTS_NANOS: &'static str = "nanos must be in [0, 1_000_000_000)";

/// Message for a time of day of one day or more.
pub const MSG_TOD_SECONDS: &'static str = "tod.seconds must be in [0, 86_400)";

/// Message for a time-of-day nanosecond part of one second or more.
pub const MSG_TOD_NANOS: &'static str = "tod.nanos must be in [0, 1_000_000_000)";

/// Message for a time of week of one week or more.
pub const MSG_TOW_SECONDS: &'static str = "tow.seconds must be in [0, 604_800)";

/// Message for a time-of-week nanosecond part of one second or more.
pub const MSG_TOW_NANOS: &'static str = "tow.nanos must be in [0, 1_000_000_000)";

/// Nanoseconds in one day.
pub const NANOS_PER_DAY: u64 = 86_400_000_000_000;

/// Nanoseconds in one week.
pub const NANOS_PER_WEEK: u64 = 604_800_000_000_000;

impl DurationParts {
    /// Number of nanoseconds in one second.
    pub const NANOS_PER_SECOND: u32 = 1_000_000_000;

    /// Creates `DurationParts`; [`GnssTimeError::InvalidInput`] if `nanos`
    /// is one second or more.
    pub fn new(seconds: u64, nanos: u32) -> (r: Result<Self, GnssTimeError>)
        ensures
            r == (if nanos >= 1_000_000_000 {
                Err(GnssTimeError::InvalidInput(MSG_PARTS_NANOS))
            } else {
                Ok(DurationParts { seconds, nanos })
            }),
    {
        if nanos >= Self::NANOS_PER_SECOND {
            return Err(GnssTimeError::InvalidInput(MSG_PARTS_NANOS));
        }
        Ok(DurationParts { seconds, nanos })
    }

    /// Total nanoseconds.
    pub fn as_nanos(self) -> (r: u128)
        ensures
            r == self.seconds * 1_000_000_000 + self.nanos,
    {
        (self.seconds as u128) * (Self::NANOS_PER_SECOND as u128) + self.nanos as u128
    }
}

impl Default for DurationParts {
    /// Zero seconds and zero nanoseconds.
    fn default() -> (r: Self)
        ensures
            r == (DurationParts { seconds: 0, nanos: 0 }),
    {
        DurationParts { seconds: 0, nanos: 0 }
    }
}

/// What a constructor from a period count (`unit` nanoseconds per period)
/// and an offset within the period (at most `limit` seconds) gives.
pub open spec fn spec_from_period(
    count: int,
    unit: int,
    parts: DurationParts,
    limit: int,
    msg_seconds: &'static str,
    msg_nanos: &'static str,
) -> Result<u64, GnssTimeError> {
    if parts.seconds >= limit {
        Err(GnssTimeError::InvalidInput(msg_seconds))
    } else if parts.nanos >= 1_000_000_000 {
        Err(GnssTimeError::InvalidInput(msg_nanos))
    } else {
        checked_u64(count * unit + parts.seconds * 1_000_000_000 + parts.nanos)
    }
}

impl Time<crate::scale::Glonass> {
    /// Construct from GLONASS day number and time-of-day.
    ///
    /// [`GnssTimeError::InvalidInput`] if `tod.seconds ∉ [0, 86 400)` or
    /// `tod.nanos ∉ [0, 10⁹)`; [`GnssTimeError::Overflow`] if the instant
    /// does not fit.
    pub fn from_day_tod(day: u32, tod: DurationParts) -> (r: Result<Self, GnssTimeError>)
        ensures
            time_result(r) == spec_from_period(
                day as int,
                NANOS_PER_DAY as int,
                tod,
                86_400,
                MSG_TOD_SECONDS,
                MSG_TOD_NANOS,
            ),
    {
        if tod.seconds >= 86_400 {
            return Err(GnssTimeError::InvalidInput(MSG_TOD_SECONDS));
        }
        if tod.nanos >= DurationParts::NANOS_PER_SECOND {
            return Err(GnssTimeError::InvalidInput(MSG_TOD_NANOS));
        }
        let day_ns = match (day as u64).checked_mul(NANOS_PER_DAY) {
            Some(v) => v,
            None => return Err(GnssTimeError::Overflow),
        };
        let tod_ns = tod.seconds * 1_000_000_000 + tod.nanos as u64;
        match day_ns.checked_add(tod_ns) {
            Some(total) => Ok(Time::from_nanos(total)),
            None => Err(GnssTimeError::Overflow),
        }
    }

    /// Day number since the GLONASS epoch.
    pub fn day(self) -> (r: u32)
        ensures
            r == self@ / NANOS_PER_DAY,
    {
        (self.nanos / NANOS_PER_DAY) as u32
    }

    /// Time of day in whole seconds.
    pub fn tod_seconds(self) -> (r: u32)
        ensures
            r == (self@ % NANOS_PER_DAY) / 1_000_000_000,
    {
        ((self.nanos % NANOS_PER_DAY) / 1_000_000_000) as u32
    }

    /// Sub-second nanosecond remainder within the current second.
    pub fn sub_second_nanos(self) -> (r: u32)
        ensures
            r == self@ % 1_000_000_000,
    {
        (self.nanos % 1_000_000_000) as u32
    }

    /// Day of week: **1 = Monday … 7 = Sunday** (the GLONASS epoch,
    /// 1996-01-01, was a Monday).
    pub fn day_of_week(self) -> (r: u8)
        ensures
            r == (self@ / NANOS_PER_DAY) % 7 + 1,
    {
        (self.day() % 7) as u8 + 1
    }

    /// `true` on Saturday (6) and Sunday (7).
    pub fn is_weekend(self) -> (r: bool)
        ensures
            r == ((self@ / NANOS_PER_DAY) % 7 >= 5),
    {
        let d = self.day_of_week();
        d == 6 || d == 7
    }
}

impl Time<crate::scale::Gps> {
    /// Construct from GPS week number and time-of-week.
    ///
    /// [`GnssTimeError::InvalidInput`] if `tow.seconds ∉ [0, 604 800)` or
    /// `tow.nanos ∉ [0, 10⁹)`; [`GnssTimeError::Overflow`] if the instant
    /// does not fit.
    pub fn from_week_tow(week: u16, tow: DurationParts) -> (r: Result<Self, GnssTimeError>)
        ensures
            time_result(r) == spec_from_period(
                week as int,
                NANOS_PER_WEEK as int,
                tow,
                604_800,
                MSG_TOW_SECONDS,
                MSG_TOW_NANOS,
            ),
    {
        if tow.seconds >= 604_800 {
            return Err(GnssTimeError::InvalidInput(MSG_TOW_SECONDS));
        }
        if tow.nanos >= DurationParts::NANOS_PER_SECOND {
            return Err(GnssTimeError::InvalidInput(MSG_TOW_NANOS));
        }
        let week_ns = match (week as u64).checked_mul(NANOS_PER_WEEK) {
            Some(v) => v,
            None => return Err(GnssTimeError::Overflow),
        };
        let tow_ns = tow.seconds * 1_000_000_000 + tow.nanos as u64;
        match week_ns.checked_add(tow_ns) {
            Some(total) => Ok(Time::from_nanos(total)),
            None => Err(GnssTimeError::Overflow),
        }
    }

    /// GPS week number.
    pub fn week(self) -> (r: u32)
        ensures
            r == self@ / NANOS_PER_WEEK,
    {
        (self.nanos / NANOS_PER_WEEK) as u32
    }

    /// Time of week in whole seconds.
    pub fn tow_seconds(self) -> (r: u32)
        ensures
            r == (self@ % NANOS_PER_WEEK) / 1_000_000_000,
    {
        ((self.nanos % NANOS_PER_WEEK) / 1_000_000_000) as u32
    }

    /// Sub-second nanosecond remainder within the current second.
    pub fn sub_second_nanos(self) -> (r: u32)
        ensures
            r == self@ % 1_000_000_000,
    {
        (self.nanos % 1_000_000_000) as u32
    }
}

impl Time<crate::scale::Utc> {
    /// Construct from a Unix timestamp (whole seconds since 1970-01-01 UTC).
    ///
    /// `Time<Utc>` counts from 1972-01-01, 63 072 000 s after the Unix
    /// epoch; [`GnssTimeError::Overflow`] for earlier instants or when the
    /// nanosecond count does not fit.
    pub fn from_unix_seconds(unix_seconds: i64) -> (r: Result<Self, GnssTimeError>)
        ensures
            time_result(r) == checked_u64((unix_seconds - 63_072_000) * 1_000_000_000),
    {
        let utc_s = match unix_seconds.checked_sub(UTC_EPOCH_UNIX_OFFSET_S) {
            Some(v) => v,
            None => return Err(GnssTimeError::Overflow),
        };
        if utc_s < 0 {
            return Err(GnssTimeError::Overflow);
        }
        match (utc_s as u64).checked_mul(1_000_000_000) {
            Some(nanos) => Ok(Time::from_nanos(nanos)),
            None => Err(GnssTimeError::Overflow),
        }
    }

    /// Construct from a Unix timestamp with nanosecond precision;
    /// [`GnssTimeError::Overflow`] before the UTC epoch (1972-01-01).
    pub fn from_unix_nanos(unix_nanos: i64) -> (r: Result<Self, GnssTimeError>)
        ensures
            time_result(r) == checked_u64(unix_nanos - 63_072_000_000_000_000),
    {
        let utc_ns = match unix_nanos.checked_sub(UTC_EPOCH_UNIX_OFFSET_NS) {
            Some(v) => v,
            None => return Err(GnssTimeError::Overflow),
        };
        if utc_ns < 0 {
            return Err(GnssTimeError::Overflow);
        }
        Ok(Time::from_nanos(utc_ns as u64))
    }

    /// Whole seconds since the Unix epoch (always ≥ 63 072 000).
    pub fn as_unix_seconds(self) -> (r: i64)
        ensures
            r == self@ / 1_000_000_000 + 63_072_000,
    {
        (self.nanos / 1_000_000_000) as i64 + UTC_EPOCH_UNIX_OFFSET_S
    }

    /// Nanoseconds since the Unix epoch, saturating at `i64::MAX` (reached
    /// around the year 2262).
    pub fn as_unix_nanos(self) -> (r: i64)
        ensures
            r == (if self@ + 63_072_000_000_000_000 > i64::MAX {
                i64::MAX as int
            } else {
                self@ + 63_072_000_000_000_000
            }),
    {
        if self.nanos > (i64::MAX - UTC_EPOCH_UNIX_OFFSET_NS) as u64 {
            i64::MAX
        } else {
            self.nanos as i64 + UTC_EPOCH_UNIX_OFFSET_NS
        }
    }
}

/// The text form of `n` nanoseconds in a scale named `name` shown in
/// `style`: `"GPS 2345:432000.000"`, `"GLO 10512:43200.000"` or
/// `"TAI +1000000000s 0ns"`.
pub open spec fn time_text(name: Seq<char>, style: DisplayStyle, n: nat) -> Seq<char> {
    match style {
        DisplayStyle::WeekTow => name + seq![' '] + dec(n / (NANOS_PER_WEEK as nat)) + seq![':']
            + dec_pad((n % (NANOS_PER_WEEK as nat)) / 1_000_000_000, 6) + seq!['.'] + dec_pad(
            ((n % (NANOS_PER_WEEK as nat)) % 1_000_000_000) / 1_000_000,
            3,
        ),
        DisplayStyle::DayTod => name + seq![' '] + dec(n / (NANOS_PER_DAY as nat)) + seq![':']
            + dec_pad((n % (NANOS_PER_DAY as nat)) / 1_000_000_000, 5) + seq!['.'] + dec_pad(
            ((n % (NANOS_PER_DAY as nat)) % 1_000_000_000) / 1_000_000,
            3,
        ),
        DisplayStyle::Simple => name + seq![' ', '+'] + dec(n / 1_000_000_000) + seq!['s', ' ']
            + dec(n % 1_000_000_000) + seq!['n', 's'],
    }
}

impl<S: TimeScale> Time<S> {
    /// The text form, in the scale's [`DisplayStyle`]:
    /// `"GPS 2345:432000.000"`, `"GLO 10512:43200.000"`,
    /// `"TAI +1000000000s 0ns"`.
    pub fn to_string(&self) -> (r: String)
        ensures
            r@ == time_text(S::NAME@, S::DISPLAY_STYLE, self@ as nat),
    {
        let mut s = String::from_str(S::NAME);
        proof {
            reveal_strlit(" ");
            reveal_strlit(":");
            reveal_strlit(".");
            reveal_strlit(" +");
            reveal_strlit("s ");
            reveal_strlit("ns");
        }
        match S::DISPLAY_STYLE {
            DisplayStyle::WeekTow => {
                let tow_ns = self.nanos % NANOS_PER_WEEK;
                s.append(" ");
                push_dec(&mut s, self.nanos / NANOS_PER_WEEK);
                s.append(":");
                push_dec_pad(&mut s, tow_ns / 1_000_000_000, 6);
                s.append(".");
                push_dec_pad(&mut s, (tow_ns % 1_000_000_000) / 1_000_000, 3);
            },
            DisplayStyle::DayTod => {
                let tod_ns = self.nanos % NANOS_PER_DAY;
                s.append(" ");
                push_dec(&mut s, self.nanos / NANOS_PER_DAY);
                s.append(":");
                push_dec_pad(&mut s, tod_ns / 1_000_000_000, 5);
                s.append(".");
                push_dec_pad(&mut s, (tod_ns % 1_000_000_000) / 1_000_000, 3);
            },
            DisplayStyle::Simple => {
                s.append(" +");
                push_dec(&mut s, self.nanos / 1_000_000_000);
                s.append("s ");
                push_dec(&mut s, self.nanos % 1_000_000_000);
                s.append("ns");
            },
        }
        assert(s@ =~= time_text(S::NAME@, S::DISPLAY_STYLE, self@ as nat));
        s
    }
}


// ---------------------------------------------------------------------------
// Laws
// ---------------------------------------------------------------------------

/// A fixed-offset scale converts to TAI and back without loss.
pub proof fn lemma_tai_roundtrip<S: TimeScale>(n: u64)
    requires
        spec_to_tai::<S>(n as int) is Ok,
    ensures
        spec_from_tai::<S>(spec_to_tai::<S>(n as int)->Ok_0 as int) == Ok::<u64, GnssTimeError>(n),
{
}

/// Converting between two fixed-offset scales and back gives the instant
/// back.
pub proof fn lemma_convert_roundtrip<S: TimeScale, T: TimeScale>(n: u64)
    requires
        spec_convert::<S, T>(n as int) is Ok,
    ensures
        spec_convert::<T, S>(spec_convert::<S, T>(n as int)->Ok_0 as int) == Ok::<u64, GnssTimeError>(n),
{
}

/// GPS and Galileo share their TAI offset, so converting between them keeps
/// the nanoseconds; BeiDou runs 14 s behind GPS.
pub proof fn lemma_gps_galileo_beidou(n: u64)
    requires
        n + 19_000_000_000 <= u64::MAX,
    ensures
        spec_convert::<crate::scale::Gps, crate::scale::Galileo>(n as int) == Ok::<u64, GnssTimeError>(n),
        spec_convert::<crate::scale::Galileo, crate::scale::Gps>(n as int) == Ok::<u64, GnssTimeError>(n),
        spec_convert::<crate::scale::Gps, crate::scale::Beidou>(n as int) == checked_u64(n - 14_000_000_000),
{
}

/// Adding a duration and subtracting it again gives the instant back.
pub proof fn lemma_add_sub_roundtrip(n: u64, d: i64)
    requires
        checked_u64_opt(n + d) is Some,
    ensures
        checked_u64_opt(checked_u64_opt(n + d)->Some_0 - d) == Some(n),
{
}

/// Splits `n` into whole periods of `unit` nanoseconds, whole seconds within
/// the period and nanoseconds within the second.
proof fn lemma_period_split(n: int, unit: int)
    requires
        n >= 0,
        unit > 0,
        unit % 1_000_000_000 == 0,
    ensures
        n == (n / unit) * unit + ((n % unit) / 1_000_000_000) * 1_000_000_000 + n % 1_000_000_000,
        (n % unit) / 1_000_000_000 < unit / 1_000_000_000,
{
    vstd::arithmetic::div_mod::lemma_fundamental_div_mod(n, unit);
    vstd::arithmetic::div_mod::lemma_fundamental_div_mod(n % unit, 1_000_000_000);
    let k = unit / 1_000_000_000;
    vstd::arithmetic::div_mod::lemma_fundamental_div_mod(unit, 1_000_000_000);
    assert(unit == 1_000_000_000 * k);
    vstd::arithmetic::div_mod::lemma_mod_mod(n, 1_000_000_000, k);
    assert(1_000_000_000 * k == k * 1_000_000_000) by (nonlinear_arith);
    assert((n % unit) / 1_000_000_000 < k) by (nonlinear_arith)
        requires
            0 <= n % unit < unit,
            unit == 1_000_000_000 * k,
    ;
}

/// A GPS instant is rebuilt exactly from its week, second of week and
/// nanoseconds (for weeks that fit the week counter).
pub proof fn lemma_week_tow_roundtrip(n: u64)
    requires
        n / NANOS_PER_WEEK <= u16::MAX,
    ensures
        spec_from_period(
            (n / NANOS_PER_WEEK) as int,
            NANOS_PER_WEEK as int,
            DurationParts {
                seconds: ((n % NANOS_PER_WEEK) / 1_000_000_000) as u64,
                nanos: (n % 1_000_000_000) as u32,
            },
            604_800,
            MSG_TOW_SECONDS,
            MSG_TOW_NANOS,
        ) == Ok::<u64, GnssTimeError>(n),
{
    lemma_period_split(n as int, NANOS_PER_WEEK as int);
}

/// The week, second of week and nanoseconds of an instant built from valid
/// parts are those parts.
pub proof fn lemma_week_tow_parts(week: u16, tow: DurationParts)
    requires
        tow.seconds < 604_800,
        tow.nanos < 1_000_000_000,
        week * NANOS_PER_WEEK + tow.seconds * 1_000_000_000 + tow.nanos <= u64::MAX,
    ensures
        ({
            let n = week * NANOS_PER_WEEK + tow.seconds * 1_000_000_000 + tow.nanos;
            &&& n / (NANOS_PER_WEEK as int) == week
            &&& (n % (NANOS_PER_WEEK as int)) / 1_000_000_000 == tow.seconds
            &&& n % 1_000_000_000 == tow.nanos
        }),
{
    let r = tow.seconds * 1_000_000_000 + tow.nanos;
    let n = week * NANOS_PER_WEEK + r;
    crate::arith::lemma_div_mod_of(n, week as int, r, NANOS_PER_WEEK as int);
    crate::arith::lemma_div_mod_of(r, tow.seconds as int, tow.nanos as int, 1_000_000_000);
    crate::arith::lemma_div_shift(r, week * 604_800, 1_000_000_000);
    assert(n == r + (week * 604_800) * 1_000_000_000);
}

/// A GLONASS instant is rebuilt exactly from its day, second of day and
/// nanoseconds.
pub proof fn lemma_day_tod_roundtrip(n: u64)
    requires
        n / NANOS_PER_DAY <= u32::MAX,
    ensures
        spec_from_period(
            (n / NANOS_PER_DAY) as int,
            NANOS_PER_DAY as int,
            DurationParts {
                seconds: ((n % NANOS_PER_DAY) / 1_000_000_000) as u64,
                nanos: (n % 1_000_000_000) as u32,
            },
            86_400,
            MSG_TOD_SECONDS,
            MSG_TOD_NANOS,
        ) == Ok::<u64, GnssTimeError>(n),
{
    lemma_period_split(n as int, NANOS_PER_DAY as int);
}

/// The day, second of day and nanoseconds of an instant built from valid
/// parts are those parts.
pub proof fn lemma_day_tod_parts(day: u32, tod: DurationParts)
    requires
        tod.seconds < 86_400,
        tod.nanos < 1_000_000_000,
        day * NANOS_PER_DAY + tod.seconds * 1_000_000_000 + tod.nanos <= u64::MAX,
    ensures
        ({
            let n = day * NANOS_PER_DAY + tod.seconds * 1_000_000_000 + tod.nanos;
            &&& n / (NANOS_PER_DAY as int) == day
            &&& (n % (NANOS_PER_DAY as int)) / 1_000_000_000 == tod.seconds
            &&& n % 1_000_000_000 == tod.nanos
        }),
{
    let r = tod.seconds * 1_000_000_000 + tod.nanos;
    let n = day * NANOS_PER_DAY + r;
    crate::arith::lemma_div_mod_of(n, day as int, r, NANOS_PER_DAY as int);
    crate::arith::lemma_div_mod_of(r, tod.seconds as int, tod.nanos as int, 1_000_000_000);
    crate::arith::lemma_div_shift(r, day * 86_400, 1_000_000_000);
    assert(n == r + (day * 86_400) * 1_000_000_000);
}

/// Unix seconds → UTC → Unix seconds gives the count back.
pub proof fn lemma_unix_seconds_roundtrip(unix_seconds: i64)
    requires
        checked_u64((unix_seconds - 63_072_000) * 1_000_000_000) is Ok,
    ensures
        checked_u64((unix_seconds - 63_072_000) * 1_000_000_000)->Ok_0 / 1_000_000_000 + 63_072_000
            == unix_seconds,
{
}

/// Unix nanoseconds → UTC → Unix nanoseconds gives the count back.
pub proof fn lemma_unix_nanos_roundtrip(unix_nanos: i64)
    requires
        checked_u64(unix_nanos - 63_072_000_000_000_000) is Ok,
    ensures
        checked_u64(unix_nanos - 63_072_000_000_000_000)->Ok_0 + 63_072_000_000_000_000 == unix_nanos,
{
}

} // verus!
