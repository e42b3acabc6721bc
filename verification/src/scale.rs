//! # Time-scale marker types
//!
//! Each GNSS or atomic time scale is a zero-sized marker type implementing
//! the sealed trait [`TimeScale`]. All conversions pivot on TAI:
//!
//! ```text
//! T_tai = T_scale + offset
//! ```
//!
//! | Scale   | Format                     |
//! |---------|----------------------------|
//! | GPS     | `GPS 2345:432000.000`      |
//! | GLONASS | `GLO 10512:43200.000`      |
//! | Galileo | `GAL 1303:432000.000`      |
//! | BeiDou  | `BDT 960:432000.000`       |
//! | TAI     | `TAI +1000000000s 0ns`     |
//! | UTC     | `UTC +1000000000s 0ns`     |

use vstd::prelude::*;

use crate::epoch::CivilDate;
pub use crate::sealed::Sealed;

verus! {

/// Nanoseconds per second.
pub(crate) const NANOS_PER_SECOND: i64 = 1_000_000_000;

/// Relationship between a time scale and TAI: `T_tai = T_scale + offset`.
#[derive(Debug, Clone, Copy, PartialEq, Eq, Hash)]
pub enum OffsetToTai {
    /// Constant offset (nanoseconds) relative to TAI.
    Fixed(i64),
    /// The offset depends on leap-second context (UTC, GLONASS).
    Contextual,
}

/// How a `Time<S>` value is rendered as text.
#[derive(Debug, Clone, Copy, PartialEq, Eq, Hash)]
pub enum DisplayStyle {
    /// `NAME WWW:SSSSSS.mmm` (GPS, Galileo, BeiDou).
    WeekTow,
    /// `NAME DDDDD:SSSSS.mmm` (GLONASS).
    DayTod,
    /// `NAME +Ss Nns` (TAI, UTC).
    Simple,
}

/// Marker trait for GNSS and atomic time scales; sealed.
///
/// Each scale defines a unique name, its offset to TAI, the civil date of its
/// epoch and its display style.
pub trait TimeScale: Sealed + Copy + Clone + Eq + PartialEq + core::fmt::Debug {
    /// Short identifier used in formatting.
    const NAME: &'static str;

    /// Formatting style.
    const DISPLAY_STYLE: DisplayStyle;

    /// The offset of the scale relative to TAI.
    spec fn spec_offset_to_tai() -> OffsetToTai;

    /// The civil date of the scale's epoch.
    spec fn spec_epoch_civil() -> CivilDate;

    /// Offset relative to TAI: `T_tai = T_self + offset`.
    fn offset_to_tai() -> (r: OffsetToTai)
        ensures
            r == Self::spec_offset_to_tai(),
    ;

    /// Civil epoch of the scale (where time == 0).
    fn epoch_civil() -> (r: CivilDate)
        ensures
            r == Self::spec_epoch_civil(),
    ;
}

/// GLONASS — UTC(SU) + 3 h, epoch 1996-01-01; needs leap-second handling.
#[derive(Debug, Copy, Clone, Eq, PartialEq, Hash, PartialOrd, Ord)]
pub struct Glonass;

/// GPS — epoch 1980-01-06, GPS = TAI − 19 s.
#[derive(Debug, Copy, Clone, Eq, PartialEq, Hash, PartialOrd, Ord)]
pub struct Gps;

/// Galileo (GST) — epoch 1999-08-22, same offset as GPS (TAI − 19 s).
#[derive(Debug, Copy, Clone, Eq, PartialEq, Hash, PartialOrd, Ord)]
pub struct Galileo;

/// BeiDou (BDT) — epoch 2006-01-01, BDT = TAI − 33 s = GPS − 14 s.
#[derive(Debug, Copy, Clone, Eq, PartialEq, Hash, PartialOrd, Ord)]
pub struct Beidou;

/// TAI — International Atomic Time, the pivot of all conversions.
#[derive(Debug, Copy, Clone, Eq, PartialEq, Hash, PartialOrd, Ord)]
pub struct Tai;

/// UTC — TAI − leap seconds; needs a leap-second table.
#[derive(Debug, Copy, Clone, Eq, PartialEq, Hash, PartialOrd, Ord)]
pub struct Utc;

impl Sealed for Glonass {}

impl Sealed for Gps {}

impl Sealed for Galileo {}

impl Sealed for Beidou {}

impl Sealed for Tai {}

impl Sealed for Utc {}

impl TimeScale for Glonass {
    const NAME: &'static str = "GLO";
    const DISPLAY_STYLE: DisplayStyle = DisplayStyle::DayTod;

    open spec fn spec_offset_to_tai() -> OffsetToTai {
        OffsetToTai::Contextual
    }

    open spec fn spec_epoch_civil() -> CivilDate {
        CivilDate { year: 1996, month: 1, day: 1 }
    }

    fn offset_to_tai() -> (r: OffsetToTai) {
        OffsetToTai::Contextual
    }

    fn epoch_civil() -> (r: CivilDate) {
        CivilDate::new(1996, 1, 1)
    }
}

impl TimeScale for Gps {
    const NAME: &'static str = "GPS";
    const DISPLAY_STYLE: DisplayStyle = DisplayStyle::WeekTow;

    open spec fn spec_offset_to_tai() -> OffsetToTai {
        OffsetToTai::Fixed(19_000_000_000)
    }

    open spec fn spec_epoch_civil() -> CivilDate {
        CivilDate { year: 1980, month: 1, day: 6 }
    }

    fn offset_to_tai() -> (r: OffsetToTai) {
        OffsetToTai::Fixed(19 * NANOS_PER_SECOND)
    }

    fn epoch_civil() -> (r: CivilDate) {
        CivilDate::new(1980, 1, 6)
    }
}

impl TimeScale for Galileo {
    const NAME: &'static str = "GAL";
    const DISPLAY_STYLE: DisplayStyle = DisplayStyle::WeekTow;

    open spec fn spec_offset_to_tai() -> OffsetToTai {
        OffsetToTai::Fixed(19_000_000_000)
    }

    open spec fn spec_epoch_civil() -> CivilDate {
        CivilDate { year: 1999, month: 8, day: 22 }
    }

    fn offset_to_tai() -> (r: OffsetToTai) {
        OffsetToTai::Fixed(19 * NANOS_PER_SECOND)
    }

    fn epoch_civil() -> (r: CivilDate) {
        CivilDate::new(1999, 8, 22)
    }
}

impl TimeScale for Beidou {
    const NAME: &'static str = "BDT";
    const DISPLAY_STYLE: DisplayStyle = DisplayStyle::WeekTow;

    open spec fn spec_offset_to_tai() -> OffsetToTai {
        OffsetToTai::Fixed(33_000_000_000)
    }

    open spec fn spec_epoch_civil() -> CivilDate {
        CivilDate { year: 2006, month: 1, day: 1 }
    }

    fn offset_to_tai() -> (r: OffsetToTai) {
        OffsetToTai::Fixed(33 * NANOS_PER_SECOND)
    }

    fn epoch_civil() -> (r: CivilDate) {
        CivilDate::new(2006, 1, 1)
    }
}

impl TimeScale for Tai {
    const NAME: &'static str = "TAI";
    const DISPLAY_STYLE: DisplayStyle = DisplayStyle::Simple;

    open spec fn spec_offset_to_tai() -> OffsetToTai {
        OffsetToTai::Fixed(0)
    }

    open spec fn spec_epoch_civil() -> CivilDate {
        CivilDate { year: 1958, month: 1, day: 1 }
    }

    fn offset_to_tai() -> (r: OffsetToTai) {
        OffsetToTai::Fixed(0)
    }

    fn epoch_civil() -> (r: CivilDate) {
        CivilDate::new(1958, 1, 1)
    }
}

impl TimeScale for Utc {
    const NAME: &'static str = "UTC";
    const DISPLAY_STYLE: DisplayStyle = DisplayStyle::Simple;

    open spec fn spec_offset_to_tai() -> OffsetToTai {
        OffsetToTai::Contextual
    }

    open spec fn spec_epoch_civil() -> CivilDate {
        CivilDate { year: 1972, month: 1, day: 1 }
    }

    fn offset_to_tai() -> (r: OffsetToTai) {
        OffsetToTai::Contextual
    }

    fn epoch_civil() -> (r: CivilDate) {
        CivilDate::new(1972, 1, 1)
    }
}

impl OffsetToTai {
    /// The fixed offset in nanoseconds, or `None` for a contextual scale.
    pub fn fixed(self) -> (r: Option<i64>)
        ensures
            r == (match self {
                OffsetToTai::Fixed(v) => Some(v),
                OffsetToTai::Contextual => None::<i64>,
            }),
    {
        match self {
            OffsetToTai::Fixed(v) => Some(v),
            OffsetToTai::Contextual => None,
        }
    }

    /// `true` for scales that need runtime context (UTC, GLONASS).
    pub fn is_contextual(self) -> (r: bool)
        ensures
            r == (self is Contextual),
    {
        match self {
            OffsetToTai::Fixed(_) => false,
            OffsetToTai::Contextual => true,
        }
    }

    /// `true` for scales with a fixed TAI offset.
    pub fn is_fixed(self) -> (r: bool)
        ensures
            r == (self is Fixed),
    {
        match self {
            OffsetToTai::Fixed(_) => true,
            OffsetToTai::Contextual => false,
        }
    }
}

} // verus!
