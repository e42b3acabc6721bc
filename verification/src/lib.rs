//! # gnss-time
//!
//! Type-safe GNSS time scales (GPS, GLONASS, Galileo, BeiDou, TAI, UTC) with
//! explicit, checked conversions and nanosecond arithmetic.
//!
//! - [`Time<S>`] is a `u64` count of nanoseconds since the epoch of scale
//!   `S`; scales cannot be mixed.
//! - [`Duration`] is a signed `i64` count of nanoseconds.
//! - Conversions across UTC take an explicit [`LeapSecondsProvider`].

#![allow(non_snake_case)]

pub mod civil;
pub mod convert;
pub mod duration;
pub mod epoch;
pub mod error;
pub mod leap;
pub mod matrix;
pub mod prelude;
pub mod scale;
pub mod time;

mod arith;
mod sealed;
mod text;

pub use civil::CivilDateTime;
pub use convert::{ConvertResult, IntoScale, IntoScaleWith};
pub use duration::Duration;
pub use epoch::{
    beidou_epoch, galileo_epoch, glonass_epoch, gps_epoch, tai_epoch, unix_epoch,
    utc_civil_epoch, CivilDate, DAYS_GPS_TO_BEIDOU, DAYS_GPS_TO_GALILEO, DAYS_GPS_TO_GLONASS,
    DAYS_UNIX_TO_GPS, GPS_EPOCH_UNIX_S, LEAP_SECONDS_AT_BEIDOU_EPOCH,
    LEAP_SECONDS_AT_GALILEO_EPOCH, LEAP_SECONDS_AT_GLONASS_EPOCH, LEAP_SECONDS_AT_GPS_EPOCH,
    NANOS_GPS_TO_BEIDOU_EPOCH_CALENDAR, NANOS_GPS_TO_GALILEO_EPOCH, UTC_EPOCH_UNIX_OFFSET_NS,
    UTC_EPOCH_UNIX_OFFSET_S,
};
pub use error::GnssTimeError;
pub use leap::{
    beidou_to_glonass, beidou_to_utc, galileo_to_glonass, galileo_to_utc, glonass_to_beidou,
    glonass_to_galileo, glonass_to_gps, glonass_to_utc, gps_to_glonass, gps_to_utc,
    utc_to_beidou, utc_to_galileo, utc_to_glonass, utc_to_gps, LeapEntry, LeapExtendError,
    LeapSeconds, LeapSecondsProvider, RuntimeLeapSeconds, RUNTIME_CAPACITY,
};
pub use matrix::{
    beidou_via_gps_to_glonass_via_utc, ConversionChain, ConversionKind, ConversionMatrix, ScaleId,
    GLONASS_UTC_EPOCH_SHIFT_NS, TAI_OFFSET_BEIDOU_NS, TAI_OFFSET_GALILEO_NS, TAI_OFFSET_GPS_NS,
    TAI_OFFSET_TAI_NS,
};
pub use scale::{Beidou, DisplayStyle, Galileo, Glonass, Gps, OffsetToTai, Tai, TimeScale, Utc};
pub use time::{DurationParts, Time};
