//! # Unified type-safe conversion API
//!
//! [`IntoScale`] converts between scales that need no leap-second context
//! (fixed offsets, and the GLONASS ↔ UTC epoch shift); [`IntoScaleWith`]
//! converts across UTC with an explicit [`LeapSecondsProvider`].
//! [`ConvertResult`] marks the one-second window around a leap-second
//! insertion, where GPS → UTC is not one-to-one.
//!
//! | From → To       | API                                | Leap seconds?          |
//! |-----------------|------------------------------------|------------------------|
//! | `Galileo → GPS` | [`IntoScale::into_scale`]          | No                     |
//! | `GPS → TAI`     | [`IntoScale::into_scale`]          | No                     |
//! | `GPS → Galileo` | [`IntoScale::into_scale`]          | No                     |
//! | `GPS → BeiDou`  | [`IntoScale::into_scale`]          | No                     |
//! | `BeiDou → GPS`  | [`IntoScale::into_scale`]          | No                     |
//! | `GPS → UTC`     | [`IntoScaleWith::into_scale_with`] | Yes                    |
//! | `UTC → GPS`     | [`IntoScaleWith::into_scale_with`] | Yes                    |
//! | `GLO → UTC`     | [`IntoScale::into_scale`]          | No (fixed epoch shift) |
//! | `UTC → GLO`     | [`IntoScale::into_scale`]          | No (fixed epoch shift) |
//! | `GPS → GLO`     | [`IntoScaleWith::into_scale_with`] | Yes                    |
//! | `GLO → GPS`     | [`IntoScaleWith::into_scale_with`] | Yes                    |

use vstd::prelude::*;

use crate::error::GnssTimeError;
use crate::leap::{
    and_then, beidou_to_glonass, beidou_to_utc, galileo_to_glonass, galileo_to_utc,
    glonass_to_beidou, glonass_to_galileo, glonass_to_gps, glonass_to_utc, gps_to_glonass,
    gps_to_utc, in_leap_window, offsets_of, spec_beidou_to_utc, spec_galileo_to_utc, spec_glonass_to_utc,
    spec_gps_to_utc, spec_utc_to_beidou, spec_utc_to_galileo, spec_utc_to_glonass,
    spec_utc_to_gps, utc_to_beidou, utc_to_galileo, utc_to_glonass, utc_to_gps,
    LeapSecondsProvider,
};
use crate::scale::{Beidou, Galileo, Glonass, Gps, Tai, TimeScale, Utc};
use crate::time::{spec_convert, spec_from_tai, spec_to_tai, time_result, Time};

verus! {

/// Conversion into scale `Target` without leap-second context.
pub trait IntoScale<Target: TimeScale>: Sized {
    /// Convert into the target scale.
    fn into_scale(self) -> Result<Time<Target>, GnssTimeError>;
}

/// Conversion into scale `Target` with an explicit leap-second provider.
pub trait IntoScaleWith<Target: TimeScale>: Sized {
    /// Convert into the target scale.
    fn into_scale_with<P: LeapSecondsProvider>(self, ls: P) -> Result<Time<Target>, GnssTimeError>;

    /// Convert, marking results inside a leap-second insertion window.
    fn into_scale_with_checked<P: LeapSecondsProvider>(self, ls: P) -> Result<
        ConvertResult<Time<Target>>,
        GnssTimeError,
    >;
}

/// Result of a leap-second-aware conversion.
#[derive(Debug, Clone, Copy, PartialEq, Eq)]
pub enum ConvertResult<T> {
    /// The conversion is exact: one source instant, one target instant.
    Exact(T),
    /// The source instant lies in the one-second window of a leap-second
    /// insertion; the value may be off by one second.
    AmbiguousLeapSecond(T),
}

impl<T> ConvertResult<T> {
    /// The contained value, whatever the variant.
    pub fn into_inner(self) -> (r: T)
        ensures
            r == (match self {
                ConvertResult::Exact(t) => t,
                ConvertResult::AmbiguousLeapSecond(t) => t,
            }),
    {
        match self {
            ConvertResult::Exact(t) => t,
            ConvertResult::AmbiguousLeapSecond(t) => t,
        }
    }

    /// `true` for [`ConvertResult::Exact`].
    pub fn is_exact(&self) -> (r: bool)
        ensures
            r == (*self is Exact),
    {
        match self {
            ConvertResult::Exact(_) => true,
            ConvertResult::AmbiguousLeapSecond(_) => false,
        }
    }

    /// `true` for [`ConvertResult::AmbiguousLeapSecond`].
    pub fn is_ambiguous(&self) -> (r: bool)
        ensures
            r == (*self is AmbiguousLeapSecond),
    {
        match self {
            ConvertResult::Exact(_) => false,
            ConvertResult::AmbiguousLeapSecond(_) => true,
        }
    }
}

/// The nanoseconds and the ambiguity flag of a checked conversion result.
pub open spec fn checked_view<T: TimeScale>(r: Result<ConvertResult<Time<T>>, GnssTimeError>) -> Result<
    (u64, bool),
    GnssTimeError,
> {
    match r {
        Ok(ConvertResult::Exact(t)) => Ok((t@, false)),
        Ok(ConvertResult::AmbiguousLeapSecond(t)) => Ok((t@, true)),
        Err(e) => Err(e),
    }
}

/// An exact checked result with the nanoseconds of `r`.
pub open spec fn exact_view(r: Result<u64, GnssTimeError>) -> Result<(u64, bool), GnssTimeError> {
    match r {
        Ok(n) => Ok((n, false)),
        Err(e) => Err(e),
    }
}


impl IntoScale<Glonass> for Time<Utc> {
    /// UTC -> GLONASS (constant epoch shift).
    fn into_scale(self) -> (r: Result<Time<Glonass>, GnssTimeError>)
        ensures
            time_result::<Glonass>(r) == spec_utc_to_glonass(self@ as int),
    {
        utc_to_glonass(self)
    }
}

impl IntoScaleWith<Glonass> for Time<Gps> {
    /// GPS -> GLONASS via UTC.
    fn into_scale_with<P: LeapSecondsProvider>(self, ls: P) -> (r: Result<Time<Glonass>, GnssTimeError>)
        ensures
            time_result::<Glonass>(r) == and_then(spec_gps_to_utc(offsets_of(&ls), self@ as int), |u: u64| spec_utc_to_glonass(u as int)),
    {
        gps_to_glonass(self, &ls)
    }

    /// Always exact.
    fn into_scale_with_checked<P: LeapSecondsProvider>(self, ls: P) -> (r: Result<
        ConvertResult<Time<Glonass>>,
        GnssTimeError,
    >)
        ensures
            checked_view::<Glonass>(r) == exact_view(and_then(spec_gps_to_utc(offsets_of(&ls), self@ as int), |u: u64| spec_utc_to_glonass(u as int))),
    {
        match gps_to_glonass(self, &ls) {
            Ok(t) => Ok(ConvertResult::Exact(t)),
            Err(e) => Err(e),
        }
    }
}

impl IntoScaleWith<Glonass> for Time<Galileo> {
    /// Galileo -> GLONASS via UTC.
    fn into_scale_with<P: LeapSecondsProvider>(self, ls: P) -> (r: Result<Time<Glonass>, GnssTimeError>)
        ensures
            time_result::<Glonass>(r) == and_then(spec_galileo_to_utc(offsets_of(&ls), self@ as int), |u: u64| spec_utc_to_glonass(u as int)),
    {
        galileo_to_glonass(self, &ls)
    }

    /// Always exact.
    fn into_scale_with_checked<P: LeapSecondsProvider>(self, ls: P) -> (r: Result<
        ConvertResult<Time<Glonass>>,
        GnssTimeError,
    >)
        ensures
            checked_view::<Glonass>(r) == exact_view(and_then(spec_galileo_to_utc(offsets_of(&ls), self@ as int), |u: u64| spec_utc_to_glonass(u as int))),
    {
        match galileo_to_glonass(self, &ls) {
            Ok(t) => Ok(ConvertResult::Exact(t)),
            Err(e) => Err(e),
        }
    }
}

impl IntoScaleWith<Glonass> for Time<Beidou> {
    /// BeiDou -> GLONASS via UTC.
    fn into_scale_with<P: LeapSecondsProvider>(self, ls: P) -> (r: Result<Time<Glonass>, GnssTimeError>)
        ensures
            time_result::<Glonass>(r) == and_then(spec_beidou_to_utc(offsets_of(&ls), self@ as int), |u: u64| spec_utc_to_glonass(u as int)),
    {
        beidou_to_glonass(self, &ls)
    }

    /// Always exact.
    fn into_scale_with_checked<P: LeapSecondsProvider>(self, ls: P) -> (r: Result<
        ConvertResult<Time<Glonass>>,
        GnssTimeError,
    >)
        ensures
            checked_view::<Glonass>(r) == exact_view(and_then(spec_beidou_to_utc(offsets_of(&ls), self@ as int), |u: u64| spec_utc_to_glonass(u as int))),
    {
        match beidou_to_glonass(self, &ls) {
            Ok(t) => Ok(ConvertResult::Exact(t)),
            Err(e) => Err(e),
        }
    }
}

impl IntoScale<Gps> for Time<Galileo> {
    /// Galileo -> GPS (same TAI offset).
    fn into_scale(self) -> (r: Result<Time<Gps>, GnssTimeError>)
        ensures
            time_result::<Gps>(r) == spec_convert::<Galileo, Gps>(self@ as int),
    {
        self.try_convert::<Gps>()
    }
}

impl IntoScale<Gps> for Time<Beidou> {
    /// BeiDou -> GPS (+14 s).
    fn into_scale(self) -> (r: Result<Time<Gps>, GnssTimeError>)
        ensures
            time_result::<Gps>(r) == spec_convert::<Beidou, Gps>(self@ as int),
    {
        self.try_convert::<Gps>()
    }
}

impl IntoScale<Gps> for Time<Tai> {
    /// TAI -> GPS (−19 s).
    fn into_scale(self) -> (r: Result<Time<Gps>, GnssTimeError>)
        ensures
            time_result::<Gps>(r) == spec_from_tai::<Gps>(self@ as int),
    {
        Time::<Gps>::from_tai(self)
    }
}

impl IntoScaleWith<Gps> for Time<Glonass> {
    /// GLONASS -> GPS via UTC.
    fn into_scale_with<P: LeapSecondsProvider>(self, ls: P) -> (r: Result<Time<Gps>, GnssTimeError>)
        ensures
            time_result::<Gps>(r) == and_then(spec_glonass_to_utc(self@ as int), |u: u64| spec_utc_to_gps(offsets_of(&ls), u as int)),
    {
        glonass_to_gps(self, &ls)
    }

    /// Always exact.
    fn into_scale_with_checked<P: LeapSecondsProvider>(self, ls: P) -> (r: Result<
        ConvertResult<Time<Gps>>,
        GnssTimeError,
    >)
        ensures
            checked_view::<Gps>(r) == exact_view(and_then(spec_glonass_to_utc(self@ as int), |u: u64| spec_utc_to_gps(offsets_of(&ls), u as int))),
    {
        match glonass_to_gps(self, &ls) {
            Ok(t) => Ok(ConvertResult::Exact(t)),
            Err(e) => Err(e),
        }
    }
}

impl IntoScaleWith<Gps> for Time<Utc> {
    /// UTC -> GPS; every UTC instant has one GPS instant, so the checked form is always exact.
    fn into_scale_with<P: LeapSecondsProvider>(self, ls: P) -> (r: Result<Time<Gps>, GnssTimeError>)
        ensures
            time_result::<Gps>(r) == spec_utc_to_gps(offsets_of(&ls), self@ as int),
    {
        utc_to_gps(self, &ls)
    }

    /// Always exact.
    fn into_scale_with_checked<P: LeapSecondsProvider>(self, ls: P) -> (r: Result<
        ConvertResult<Time<Gps>>,
        GnssTimeError,
    >)
        ensures
            checked_view::<Gps>(r) == exact_view(spec_utc_to_gps(offsets_of(&ls), self@ as int)),
    {
        match utc_to_gps(self, &ls) {
            Ok(t) => Ok(ConvertResult::Exact(t)),
            Err(e) => Err(e),
        }
    }
}

impl IntoScale<Galileo> for Time<Gps> {
    /// GPS -> Galileo (same TAI offset).
    fn into_scale(self) -> (r: Result<Time<Galileo>, GnssTimeError>)
        ensures
            time_result::<Galileo>(r) == spec_convert::<Gps, Galileo>(self@ as int),
    {
        self.try_convert::<Galileo>()
    }
}

impl IntoScale<Galileo> for Time<Beidou> {
    /// BeiDou -> Galileo (+14 s).
    fn into_scale(self) -> (r: Result<Time<Galileo>, GnssTimeError>)
        ensures
            time_result::<Galileo>(r) == spec_convert::<Beidou, Galileo>(self@ as int),
    {
        self.try_convert::<Galileo>()
    }
}

impl IntoScaleWith<Galileo> for Time<Glonass> {
    /// GLONASS -> Galileo via UTC.
    fn into_scale_with<P: LeapSecondsProvider>(self, ls: P) -> (r: Result<Time<Galileo>, GnssTimeError>)
        ensures
            time_result::<Galileo>(r) == and_then(spec_glonass_to_utc(self@ as int), |u: u64| spec_utc_to_galileo(offsets_of(&ls), u as int)),
    {
        glonass_to_galileo(self, &ls)
    }

    /// Always exact.
    fn into_scale_with_checked<P: LeapSecondsProvider>(self, ls: P) -> (r: Result<
        ConvertResult<Time<Galileo>>,
        GnssTimeError,
    >)
        ensures
            checked_view::<Galileo>(r) == exact_view(and_then(spec_glonass_to_utc(self@ as int), |u: u64| spec_utc_to_galileo(offsets_of(&ls), u as int))),
    {
        match glonass_to_galileo(self, &ls) {
            Ok(t) => Ok(ConvertResult::Exact(t)),
            Err(e) => Err(e),
        }
    }
}

impl IntoScaleWith<Galileo> for Time<Utc> {
    /// UTC -> Galileo.
    fn into_scale_with<P: LeapSecondsProvider>(self, ls: P) -> (r: Result<Time<Galileo>, GnssTimeError>)
        ensures
            time_result::<Galileo>(r) == spec_utc_to_galileo(offsets_of(&ls), self@ as int),
    {
        utc_to_galileo(self, &ls)
    }

    /// Always exact.
    fn into_scale_with_checked<P: LeapSecondsProvider>(self, ls: P) -> (r: Result<
        ConvertResult<Time<Galileo>>,
        GnssTimeError,
    >)
        ensures
            checked_view::<Galileo>(r) == exact_view(spec_utc_to_galileo(offsets_of(&ls), self@ as int)),
    {
        match utc_to_galileo(self, &ls) {
            Ok(t) => Ok(ConvertResult::Exact(t)),
            Err(e) => Err(e),
        }
    }
}

impl IntoScale<Beidou> for Time<Gps> {
    /// GPS -> BeiDou (−14 s).
    fn into_scale(self) -> (r: Result<Time<Beidou>, GnssTimeError>)
        ensures
            time_result::<Beidou>(r) == spec_convert::<Gps, Beidou>(self@ as int),
    {
        self.try_convert::<Beidou>()
    }
}

impl IntoScale<Beidou> for Time<Galileo> {
    /// Galileo -> BeiDou (−14 s).
    fn into_scale(self) -> (r: Result<Time<Beidou>, GnssTimeError>)
        ensures
            time_result::<Beidou>(r) == spec_convert::<Galileo, Beidou>(self@ as int),
    {
        self.try_convert::<Beidou>()
    }
}

impl IntoScaleWith<Beidou> for Time<Utc> {
    /// UTC -> BeiDou.
    fn into_scale_with<P: LeapSecondsProvider>(self, ls: P) -> (r: Result<Time<Beidou>, GnssTimeError>)
        ensures
            time_result::<Beidou>(r) == spec_utc_to_beidou(offsets_of(&ls), self@ as int),
    {
        utc_to_beidou(self, &ls)
    }

    /// Always exact.
    fn into_scale_with_checked<P: LeapSecondsProvider>(self, ls: P) -> (r: Result<
        ConvertResult<Time<Beidou>>,
        GnssTimeError,
    >)
        ensures
            checked_view::<Beidou>(r) == exact_view(spec_utc_to_beidou(offsets_of(&ls), self@ as int)),
    {
        match utc_to_beidou(self, &ls) {
            Ok(t) => Ok(ConvertResult::Exact(t)),
            Err(e) => Err(e),
        }
    }
}

impl IntoScaleWith<Beidou> for Time<Glonass> {
    /// GLONASS -> BeiDou via UTC.
    fn into_scale_with<P: LeapSecondsProvider>(self, ls: P) -> (r: Result<Time<Beidou>, GnssTimeError>)
        ensures
            time_result::<Beidou>(r) == and_then(spec_glonass_to_utc(self@ as int), |u: u64| spec_utc_to_beidou(offsets_of(&ls), u as int)),
    {
        glonass_to_beidou(self, &ls)
    }

    /// Always exact.
    fn into_scale_with_checked<P: LeapSecondsProvider>(self, ls: P) -> (r: Result<
        ConvertResult<Time<Beidou>>,
        GnssTimeError,
    >)
        ensures
            checked_view::<Beidou>(r) == exact_view(and_then(spec_glonass_to_utc(self@ as int), |u: u64| spec_utc_to_beidou(offsets_of(&ls), u as int))),
    {
        match glonass_to_beidou(self, &ls) {
            Ok(t) => Ok(ConvertResult::Exact(t)),
            Err(e) => Err(e),
        }
    }
}

impl IntoScale<Utc> for Time<Glonass> {
    /// GLONASS -> UTC (constant epoch shift).
    fn into_scale(self) -> (r: Result<Time<Utc>, GnssTimeError>)
        ensures
            time_result::<Utc>(r) == spec_glonass_to_utc(self@ as int),
    {
        glonass_to_utc(self)
    }
}

impl IntoScaleWith<Utc> for Time<Galileo> {
    /// Galileo -> UTC.
    fn into_scale_with<P: LeapSecondsProvider>(self, ls: P) -> (r: Result<Time<Utc>, GnssTimeError>)
        ensures
            time_result::<Utc>(r) == spec_galileo_to_utc(offsets_of(&ls), self@ as int),
    {
        galileo_to_utc(self, &ls)
    }

    /// Always exact.
    fn into_scale_with_checked<P: LeapSecondsProvider>(self, ls: P) -> (r: Result<
        ConvertResult<Time<Utc>>,
        GnssTimeError,
    >)
        ensures
            checked_view::<Utc>(r) == exact_view(spec_galileo_to_utc(offsets_of(&ls), self@ as int)),
    {
        match galileo_to_utc(self, &ls) {
            Ok(t) => Ok(ConvertResult::Exact(t)),
            Err(e) => Err(e),
        }
    }
}

impl IntoScaleWith<Utc> for Time<Beidou> {
    /// BeiDou -> UTC.
    fn into_scale_with<P: LeapSecondsProvider>(self, ls: P) -> (r: Result<Time<Utc>, GnssTimeError>)
        ensures
            time_result::<Utc>(r) == spec_beidou_to_utc(offsets_of(&ls), self@ as int),
    {
        beidou_to_utc(self, &ls)
    }

    /// Always exact.
    fn into_scale_with_checked<P: LeapSecondsProvider>(self, ls: P) -> (r: Result<
        ConvertResult<Time<Utc>>,
        GnssTimeError,
    >)
        ensures
            checked_view::<Utc>(r) == exact_view(spec_beidou_to_utc(offsets_of(&ls), self@ as int)),
    {
        match beidou_to_utc(self, &ls) {
            Ok(t) => Ok(ConvertResult::Exact(t)),
            Err(e) => Err(e),
        }
    }
}

impl IntoScale<Tai> for Time<Gps> {
    /// GPS -> TAI (+19 s).
    fn into_scale(self) -> (r: Result<Time<Tai>, GnssTimeError>)
        ensures
            time_result::<Tai>(r) == spec_to_tai::<Gps>(self@ as int),
    {
        self.to_tai()
    }
}

impl IntoScaleWith<Utc> for Time<Gps> {
    /// GPS -> UTC.
    fn into_scale_with<P: LeapSecondsProvider>(self, ls: P) -> (r: Result<Time<Utc>, GnssTimeError>)
        ensures
            time_result::<Utc>(r) == spec_gps_to_utc(offsets_of(&ls), self@ as int),
    {
        gps_to_utc(self, &ls)
    }

    /// GPS -> UTC, marked ambiguous when TAI − UTC changed within the last
    /// second before the instant (a leap-second insertion window).
    fn into_scale_with_checked<P: LeapSecondsProvider>(self, ls: P) -> (r: Result<
        ConvertResult<Time<Utc>>,
        GnssTimeError,
    >)
        ensures
            checked_view::<Utc>(r) == (match spec_gps_to_utc(offsets_of(&ls), self@ as int) {
                Ok(u) => Ok((u, in_leap_window(offsets_of(&ls), self@ as int))),
                Err(e) => Err(e),
            }),
    {
        let utc = match gps_to_utc(self, &ls) {
            Ok(u) => u,
            Err(e) => return Err(e),
        };
        let tai = match self.to_tai() {
            Ok(t) => t,
            Err(e) => return Err(e),
        };
        let n_at = ls.tai_minus_utc_at(tai);
        let tai_prev = if tai.as_nanos() >= 1_000_000_000 {
            Time::<Tai>::from_nanos(tai.as_nanos() - 1_000_000_000)
        } else {
            tai
        };
        let n_before = ls.tai_minus_utc_at(tai_prev);
        if n_at != n_before {
            Ok(ConvertResult::AmbiguousLeapSecond(utc))
        } else {
            Ok(ConvertResult::Exact(utc))
        }
    }
}

} // verus!
