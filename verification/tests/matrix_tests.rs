#![allow(unused_imports, clippy::all)]

use gnss_time::civil::{civil_nanos, is_civil_of};
use gnss_time::convert::{ConvertResult, IntoScale, IntoScaleWith};
use gnss_time::duration::Duration;
use gnss_time::epoch::{
    beidou_epoch, galileo_epoch, glonass_epoch, gps_epoch, tai_epoch, unix_epoch,
    utc_civil_epoch, CivilDate, DAYS_GPS_TO_BEIDOU, DAYS_GPS_TO_GALILEO, DAYS_GPS_TO_GLONASS,
    DAYS_UNIX_TO_GPS, GPS_EPOCH_UNIX_S, LEAP_SECONDS_AT_BEIDOU_EPOCH,
    LEAP_SECONDS_AT_GALILEO_EPOCH, LEAP_SECONDS_AT_GLONASS_EPOCH, LEAP_SECONDS_AT_GPS_EPOCH,
    NANOS_GPS_TO_BEIDOU_EPOCH_CALENDAR, NANOS_GPS_TO_GALILEO_EPOCH, UTC_EPOCH_UNIX_OFFSET_NS,
    UTC_EPOCH_UNIX_OFFSET_S,
};
use gnss_time::error::GnssTimeError;
use gnss_time::leap::{
    beidou_to_glonass, beidou_to_utc, galileo_to_glonass, galileo_to_utc, glonass_to_beidou,
    glonass_to_galileo, glonass_to_gps, glonass_to_utc, gps_to_glonass, gps_to_utc,
    utc_to_beidou, utc_to_galileo, utc_to_glonass, utc_to_gps, LeapEntry, LeapExtendError,
    LeapSeconds, LeapSecondsProvider, RuntimeLeapSeconds, RUNTIME_CAPACITY,
};
use gnss_time::matrix::{
    beidou_via_gps_to_glonass_via_utc, ConversionChain, ConversionKind, ConversionMatrix, ScaleId,
    GLONASS_UTC_EPOCH_SHIFT_NS, TAI_OFFSET_BEIDOU_NS, TAI_OFFSET_GALILEO_NS, TAI_OFFSET_GPS_NS,
    TAI_OFFSET_TAI_NS,
};
use gnss_time::scale::{Beidou, DisplayStyle, Galileo, Glonass, Gps, OffsetToTai, Tai, TimeScale, Utc};
use gnss_time::time::{DurationParts, Time};
use gnss_time::CivilDateTime;

    #[test]
    fn test_scale_id_names_are_correct() {
        assert_eq!(ScaleId::Glonass.name(), "GLO");
        assert_eq!(ScaleId::Gps.name(), "GPS");
        assert_eq!(ScaleId::Galileo.name(), "GAL");
        assert_eq!(ScaleId::Beidou.name(), "BDT");
        assert_eq!(ScaleId::Tai.name(), "TAI");
        assert_eq!(ScaleId::Utc.name(), "UTC");
    }

    #[test]
    fn test_same_scale_is_same_scale() {
        for &s in &ScaleId::ALL {
            assert_eq!(s.conversion_kind(s), ConversionKind::SameScale);
        }
    }

    #[test]
    fn test_gps_galileo_is_identity() {
        // Error
        assert_eq!(
            ScaleId::Gps.conversion_kind(ScaleId::Galileo),
            ConversionKind::Identity
        );
        assert_eq!(
            ScaleId::Galileo.conversion_kind(ScaleId::Gps),
            ConversionKind::Identity
        );
    }

    #[test]
    fn test_gps_tai_is_fixed() {
        assert_eq!(
            ScaleId::Gps.conversion_kind(ScaleId::Tai),
            ConversionKind::Fixed
        );
        assert_eq!(
            ScaleId::Tai.conversion_kind(ScaleId::Gps),
            ConversionKind::Fixed
        );
    }

    #[test]
    fn test_gps_beidou_is_fixed() {
        assert_eq!(
            ScaleId::Gps.conversion_kind(ScaleId::Beidou),
            ConversionKind::Fixed
        );
        assert_eq!(
            ScaleId::Beidou.conversion_kind(ScaleId::Gps),
            ConversionKind::Fixed
        );
    }

    #[test]
    fn test_glonass_utc_is_epoch_shift() {
        assert_eq!(
            ScaleId::Glonass.conversion_kind(ScaleId::Utc),
            ConversionKind::EpochShift
        );
        assert_eq!(
            ScaleId::Utc.conversion_kind(ScaleId::Glonass),
            ConversionKind::EpochShift
        );
    }

    #[test]
    fn test_contextual_conversions_require_leap_seconds() {
        let contextual_pairs = [
            (ScaleId::Gps, ScaleId::Utc),
            (ScaleId::Gps, ScaleId::Glonass),
            (ScaleId::Galileo, ScaleId::Utc),
            (ScaleId::Galileo, ScaleId::Glonass),
            (ScaleId::Beidou, ScaleId::Utc),
            (ScaleId::Beidou, ScaleId::Glonass),
        ];
        for (from, to) in contextual_pairs {
            assert!(
                from.needs_leap_seconds(to),
                "{:?} → {:?} should be contextual",
                from,
                to
            );
            assert!(
                to.needs_leap_seconds(from),
                "{:?} → {:?} should be contextual",
                to,
                from
            );
        }
    }

    #[test]
    fn test_fixed_conversions_dont_need_leap_seconds() {
        let fixed_pairs = [
            (ScaleId::Gps, ScaleId::Tai),
            (ScaleId::Gps, ScaleId::Galileo),
            (ScaleId::Gps, ScaleId::Beidou),
            (ScaleId::Galileo, ScaleId::Beidou),
            (ScaleId::Glonass, ScaleId::Utc),
        ];
        for (from, to) in fixed_pairs {
            assert!(from.is_fixed(to), "{:?} → {:?} should be fixed", from, to);
            assert!(to.is_fixed(from), "{:?} → {:?} should be fixed", to, from);
        }
    }

    #[test]
    fn test_tai_offset_constants_are_correct() {
        assert_eq!(TAI_OFFSET_GPS_NS, 19_000_000_000);
        assert_eq!(TAI_OFFSET_GALILEO_NS, 19_000_000_000);
        assert_eq!(TAI_OFFSET_BEIDOU_NS, 33_000_000_000);
        assert_eq!(TAI_OFFSET_TAI_NS, 0);
        assert_eq!(GLONASS_UTC_EPOCH_SHIFT_NS, 757_371_600_000_000_000);
    }

    #[test]
    fn test_matrix_counts_are_correct() {
        let m = ConversionMatrix::new();
        // 6×6 матрица − 6 диагональных элементов = 30 внедиагональных ячеек
        // Fixed+Identity+EpochShift: симметрично, поэтому учитываем пары
        // GPS↔TAI(2) + GPS↔GAL(2) + GPS↔BDT(2) + GAL↔BDT(2) + GAL↔TAI(2) + BDT↔TAI(2) +
        // GLO↔UTC(2) = 14
        assert_eq!(m.path_count(false), 14, "14 fixed paths");
        // Оставшиеся 30 − 14 = 16 путей являются контекстуальными
        assert_eq!(m.path_count(true), 16, "16 contextual paths");
    }

    #[test]
    fn test_all_off_diagonal_cells_are_classified() {
        // Проверяем каждую пару (от, до) как фиксированную/идентичную/сдвиг эпохи или
        // контекстную.
        for &from in &ScaleId::ALL {
            for &to in &ScaleId::ALL {
                if from != to {
                    let kind = from.conversion_kind(to);
                    assert_ne!(
                        kind,
                        ConversionKind::SameScale,
                        "{:?}→{:?} should not be SameScale",
                        from,
                        to
                    );
                }
            }
        }
    }

    #[test]
    fn test_matrix_is_symmetric_in_kind_category() {
        // Для каждой пары классификация фиксированный против контекстуального должна
        // быть симметричной.
        for &from in &ScaleId::ALL {
            for &to in &ScaleId::ALL {
                if from != to {
                    let fwd_fixed = from.is_fixed(to);
                    let rev_fixed = to.is_fixed(from);
                    assert_eq!(
                        fwd_fixed, rev_fixed,
                        "{:?}↔{:?}: fixed classification must be symmetric",
                        from, to
                    );
                }
            }
        }
    }
