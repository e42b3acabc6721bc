//! Common imports for typical usage: `use gnss_time::prelude::*;`.

pub use crate::civil::CivilDateTime;
pub use crate::convert::{ConvertResult, IntoScale, IntoScaleWith};
pub use crate::duration::Duration;
pub use crate::epoch::{GPS_EPOCH_UNIX_S, UTC_EPOCH_UNIX_OFFSET_NS, UTC_EPOCH_UNIX_OFFSET_S};
pub use crate::error::GnssTimeError;
pub use crate::leap::{
    gps_to_utc, utc_to_gps, LeapEntry, LeapExtendError, LeapSeconds, LeapSecondsProvider,
    RuntimeLeapSeconds, RUNTIME_CAPACITY,
};
pub use crate::scale::{Beidou, Galileo, Glonass, Gps, Tai, Utc};
pub use crate::time::{DurationParts, Time};
