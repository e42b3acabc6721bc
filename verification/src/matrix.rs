//! # Conversion matrix: the full graph of supported transformations
//!
//! | From \ To  | GLONASS     | GPS        | Galileo    | BeiDou     | TAI        | UTC         |
//! |------------|-------------|------------|------------|------------|------------|-------------|
//! | **GLONASS**| —           | via UTC+LS | via UTC+LS | via UTC+LS | no (ctx)   | +757371600s |
//! | **GPS**    | via UTC+LS  | —          | identity   | −14s       | +19s       | via LS      |
//! | **Galileo**| via UTC+LS  | identity   | —          | −14s       | +19s       | via LS      |
//! | **BeiDou** | via UTC+LS  | +14s       | +14s       | —          | +33s       | via LS      |
//! | **TAI**    | no (ctx)    | −19s       | −19s       | −33s       | —          | via LS      |
//! | **UTC**    | −757371600s | via LS     | via LS     | via LS     | via LS     | —           |
//!
//! GPS, Galileo, BeiDou and TAI have fixed offsets to one another; GLONASS
//! and UTC differ by a constant epoch shift; every other pair needs a
//! [`LeapSecondsProvider`].

use vstd::prelude::*;

use crate::convert::{IntoScale, IntoScaleWith};
use crate::error::GnssTimeError;
use crate::leap::{and_then, offsets_of, spec_gps_to_utc, spec_utc_to_glonass, spec_glonass_to_utc, LeapSecondsProvider};
use crate::scale::{Beidou, Galileo, Glonass, Gps, OffsetToTai, Tai, TimeScale, Utc};
use crate::time::{spec_convert, spec_to_tai, Time};

verus! {

/// GPS offset to TAI in nanoseconds.
pub const TAI_OFFSET_GPS_NS: i64 = 19 * 1_000_000_000;

/// Galileo offset to TAI in nanoseconds.
pub const TAI_OFFSET_GALILEO_NS: i64 = 19 * 1_000_000_000;

/// BeiDou offset to TAI in nanoseconds.
pub const TAI_OFFSET_BEIDOU_NS: i64 = 33 * 1_000_000_000;

/// TAI offset to itself.
pub const TAI_OFFSET_TAI_NS: i64 = 0;

/// GLONASS → UTC epoch shift in nanoseconds.
pub const GLONASS_UTC_EPOCH_SHIFT_NS: i64 = 757_371_600 * 1_000_000_000;

/// Kind of conversion between two scales.
#[derive(Debug, Clone, Copy, PartialEq, Eq, Structural)]
pub enum ConversionKind {
    /// Fixed offset of whole seconds, no context.
    Fixed,
    /// Equal nanosecond values (GPS ↔ Galileo).
    Identity,
    /// Constant epoch shift, no leap seconds (GLONASS ↔ UTC).
    EpochShift,
    /// Needs a leap-second provider.
    Contextual,
    /// Source and target are the same scale.
    SameScale,
}

/// Runtime identifier of a time scale.
#[derive(Debug, Clone, Copy, PartialEq, Eq, Hash, Structural)]
pub enum ScaleId {
    /// GLONASS.
    Glonass,
    /// GPS.
    Gps,
    /// Galileo.
    Galileo,
    /// BeiDou.
    Beidou,
    /// TAI.
    Tai,
    /// UTC.
    Utc,
}

/// Runtime view of the conversion matrix.
pub struct ConversionMatrix;

/// The result of converting a BeiDou instant through every hop of the
/// chain BeiDou → GPS → GLONASS → UTC, with the TAI instant of the GPS hop.
#[derive(Debug)]
pub struct ConversionChain {
    /// GLONASS time.
    pub glonass: Time<Glonass>,
    /// GPS time.
    pub gps: Time<Gps>,
    /// UTC time.
    pub utc: Time<Utc>,
    /// TAI time.
    pub tai: Time<Tai>,
}

/// `s` has a fixed offset to TAI (GPS, Galileo, BeiDou, TAI).
pub open spec fn has_fixed_offset(s: ScaleId) -> bool {
    s is Gps || s is Galileo || s is Beidou || s is Tai
}

/// The kind of conversion from `a` to `b`.
pub open spec fn kind_of(a: ScaleId, b: ScaleId) -> ConversionKind {
    if a == b {
        ConversionKind::SameScale
    } else if (a is Gps && b is Galileo) || (a is Galileo && b is Gps) {
        ConversionKind::Identity
    } else if has_fixed_offset(a) && has_fixed_offset(b) {
        ConversionKind::Fixed
    } else if (a is Glonass && b is Utc) || (a is Utc && b is Glonass) {
        ConversionKind::EpochShift
    } else {
        ConversionKind::Contextual
    }
}

/// The scales in matrix order.
pub open spec fn scale_at(i: int) -> ScaleId {
    if i == 0 {
        ScaleId::Glonass
    } else if i == 1 {
        ScaleId::Gps
    } else if i == 2 {
        ScaleId::Galileo
    } else if i == 3 {
        ScaleId::Beidou
    } else if i == 4 {
        ScaleId::Tai
    } else {
        ScaleId::Utc
    }
}

/// The pair `(a, b)` is a conversion path of the asked kind: distinct
/// scales, contextual or not.
pub open spec fn is_path(a: ScaleId, b: ScaleId, contextual: bool) -> bool {
    a != b && ((kind_of(a, b) is Contextual) == contextual)
}

/// Number of targets `scale_at(q)`, `q < j`, that make a path from
/// `scale_at(i)`.
pub open spec fn row_paths(i: int, j: int, contextual: bool) -> nat
    decreases j,
{
    if j <= 0 {
        0
    } else {
        row_paths(i, j - 1, contextual) + if is_path(scale_at(i), scale_at(j - 1), contextual) {
            1nat
        } else {
            0nat
        }
    }
}

/// Number of paths from the first `i` scales.
pub open spec fn grid_paths(i: int, contextual: bool) -> nat
    decreases i,
{
    if i <= 0 {
        0
    } else {
        grid_paths(i - 1, contextual) + row_paths(i - 1, 6, contextual)
    }
}

/// The number of names of a scale.
pub open spec fn scale_name(s: ScaleId) -> Seq<char> {
    match s {
        ScaleId::Glonass => "GLO"@,
        ScaleId::Gps => "GPS"@,
        ScaleId::Galileo => "GAL"@,
        ScaleId::Beidou => "BDT"@,
        ScaleId::Tai => "TAI"@,
        ScaleId::Utc => "UTC"@,
    }
}

impl ScaleId {
    /// All scales, in matrix order.
    pub const ALL: [ScaleId; 6] = [
        ScaleId::Glonass,
        ScaleId::Gps,
        ScaleId::Galileo,
        ScaleId::Beidou,
        ScaleId::Tai,
        ScaleId::Utc,
    ];

    /// Short name of the scale.
    pub fn name(self) -> (r: &'static str)
        ensures
            r@ == scale_name(self),
    {
        proof {
            reveal_strlit("GLO");
            reveal_strlit("GPS");
            reveal_strlit("GAL");
            reveal_strlit("BDT");
            reveal_strlit("TAI");
            reveal_strlit("UTC");
        }
        match self {
            ScaleId::Glonass => "GLO",
            ScaleId::Gps => "GPS",
            ScaleId::Galileo => "GAL",
            ScaleId::Beidou => "BDT",
            ScaleId::Tai => "TAI",
            ScaleId::Utc => "UTC",
        }
    }

    /// The kind of conversion from `self` to `target`.
    pub fn conversion_kind(self, target: ScaleId) -> (r: ConversionKind)
        ensures
            r == kind_of(self, target),
    {
        match (self, target) {
            (ScaleId::Glonass, ScaleId::Glonass) | (ScaleId::Gps, ScaleId::Gps) | (
                ScaleId::Galileo,
                ScaleId::Galileo,
            ) | (ScaleId::Beidou, ScaleId::Beidou) | (ScaleId::Tai, ScaleId::Tai) | (
                ScaleId::Utc,
                ScaleId::Utc,
            ) => ConversionKind::SameScale,
            (ScaleId::Gps, ScaleId::Tai) | (ScaleId::Tai, ScaleId::Gps) => ConversionKind::Fixed,
            (ScaleId::Gps, ScaleId::Galileo) | (ScaleId::Galileo, ScaleId::Gps) =>
                ConversionKind::Identity,
            (ScaleId::Gps, ScaleId::Beidou) | (ScaleId::Beidou, ScaleId::Gps) =>
                ConversionKind::Fixed,
            (ScaleId::Galileo, ScaleId::Beidou) | (ScaleId::Beidou, ScaleId::Galileo) =>
                ConversionKind::Fixed,
            (ScaleId::Galileo, ScaleId::Tai) | (ScaleId::Tai, ScaleId::Galileo) =>
                ConversionKind::Fixed,
            (ScaleId::Beidou, ScaleId::Tai) | (ScaleId::Tai, ScaleId::Beidou) =>
                ConversionKind::Fixed,
            (ScaleId::Glonass, ScaleId::Utc) | (ScaleId::Utc, ScaleId::Glonass) =>
                ConversionKind::EpochShift,
            _ => ConversionKind::Contextual,
        }
    }

    /// `true` when no leap-second context is needed (fixed, identity or
    /// epoch shift).
    pub fn is_fixed(self, target: ScaleId) -> (r: bool)
        ensures
            r == (kind_of(self, target) is Fixed || kind_of(self, target) is Identity || kind_of(
                self,
                target,
            ) is EpochShift),
    {
        match self.conversion_kind(target) {
            ConversionKind::Fixed | ConversionKind::Identity | ConversionKind::EpochShift => true,
            _ => false,
        }
    }

    /// `true` when a leap-second provider is needed.
    pub fn needs_leap_seconds(self, target: ScaleId) -> (r: bool)
        ensures
            r == (kind_of(self, target) is Contextual),
    {
        match self.conversion_kind(target) {
            ConversionKind::Contextual => true,
            _ => false,
        }
    }
}

impl ConversionMatrix {
    /// Creates the matrix view.
    pub fn new() -> (r: Self) {
        ConversionMatrix
    }

    /// Number of ordered pairs of distinct scales whose conversion is
    /// contextual (`contextual == true`) or not: 16 and 14.
    pub fn path_count(&self, contextual: bool) -> (r: usize)
        ensures
            r == grid_paths(6, contextual),
            r == (if contextual {
                16usize
            } else {
                14usize
            }),
    {
        let all = ScaleId::ALL;
        assert(forall|k: int| 0 <= k < 6 ==> #[trigger] all@[k] == scale_at(k));
        let mut count: usize = 0;
        let mut i: usize = 0;
        while i < 6
            invariant
                i <= 6,
                count == grid_paths(i as int, contextual),
                count <= 6 * i,
                forall|k: int| 0 <= k < 6 ==> #[trigger] all@[k] == scale_at(k),
            decreases 6 - i,
        {
            let mut j: usize = 0;
            let ghost base = count;
            while j < 6
                invariant
                    i < 6,
                    j <= 6,
                    base == grid_paths(i as int, contextual),
                    base <= 6 * i,
                    count == base + row_paths(i as int, j as int, contextual),
                    count <= base + j,
                    forall|k: int| 0 <= k < 6 ==> #[trigger] all@[k] == scale_at(k),
                decreases 6 - j,
            {
                let from = all[i];
                let to = all[j];
                if from != to {
                    let ctx = from.needs_leap_seconds(to);
                    if contextual == ctx {
                        count = count + 1;
                    }
                }
                j = j + 1;
            }
            i = i + 1;
        }
        proof {
            lemma_path_totals();
        }
        count
    }

    /// The kind of conversion from `from` to `to`.
    pub fn kind(&self, from: ScaleId, to: ScaleId) -> (r: ConversionKind)
        ensures
            r == kind_of(from, to),
    {
        from.conversion_kind(to)
    }
}

impl Default for ConversionMatrix {
    /// The matrix view.
    fn default() -> (r: Self) {
        ConversionMatrix::new()
    }
}

/// There are 16 contextual and 14 context-free conversion paths.
pub proof fn lemma_path_totals()
    ensures
        grid_paths(6, true) == 16,
        grid_paths(6, false) == 14,
{
    reveal_with_fuel(grid_paths, 7);
    reveal_with_fuel(row_paths, 7);
    assert(row_paths(0, 6, true) == 4);
    assert(row_paths(1, 6, true) == 2);
    assert(row_paths(2, 6, true) == 2);
    assert(row_paths(3, 6, true) == 2);
    assert(row_paths(4, 6, true) == 2);
    assert(row_paths(5, 6, true) == 4);
    assert(row_paths(0, 6, false) == 1);
    assert(row_paths(1, 6, false) == 3);
    assert(row_paths(2, 6, false) == 3);
    assert(row_paths(3, 6, false) == 3);
    assert(row_paths(4, 6, false) == 3);
    assert(row_paths(5, 6, false) == 1);
}

/// Conversion kinds are symmetric: converting back is the same kind of
/// conversion.
pub proof fn lemma_kind_symmetric(a: ScaleId, b: ScaleId)
    ensures
        kind_of(a, b) == kind_of(b, a),
{
}

/// Every pair of distinct scales either needs leap seconds or is fixed,
/// never both.
pub proof fn lemma_fixed_xor_contextual(a: ScaleId, b: ScaleId)
    requires
        a != b,
    ensures
        (kind_of(a, b) is Contextual) != (kind_of(a, b) is Fixed || kind_of(a, b) is Identity
            || kind_of(a, b) is EpochShift),
{
}

/// The instants of the BeiDou → GPS → GLONASS → UTC chain (with the TAI of
/// the GPS hop): GLONASS, GPS, UTC and TAI nanoseconds, or the first error.
pub open spec fn spec_chain(f: spec_fn(u64) -> i32, bdt: int) -> Result<(u64, u64, u64, u64), GnssTimeError> {
    match spec_convert::<Beidou, Gps>(bdt) {
        Err(e) => Err(e),
        Ok(gps) => match and_then(spec_gps_to_utc(f, gps as int), |u: u64| spec_utc_to_glonass(u as int)) {
            Err(e) => Err(e),
            Ok(glo) => match spec_glonass_to_utc(glo as int) {
                Err(e) => Err(e),
                Ok(utc) => match spec_to_tai::<Gps>(gps as int) {
                    Err(e) => Err(e),
                    Ok(tai) => Ok((glo, gps, utc, tai)),
                },
            },
        },
    }
}

/// The nanoseconds of a chain result.
pub open spec fn chain_view(r: Result<ConversionChain, GnssTimeError>) -> Result<(u64, u64, u64, u64), GnssTimeError> {
    match r {
        Ok(c) => Ok((c.glonass@, c.gps@, c.utc@, c.tai@)),
        Err(e) => Err(e),
    }
}

/// Converts a BeiDou instant through BeiDou → GPS → GLONASS → UTC, also
/// recording the TAI instant of the GPS hop.
pub fn beidou_via_gps_to_glonass_via_utc<P: LeapSecondsProvider>(bdt: Time<Beidou>, ls: &P) -> (r: Result<ConversionChain, GnssTimeError>)
    ensures
        chain_view(r) == spec_chain(offsets_of(ls), bdt@ as int),
{
    let gps: Time<Gps> = match bdt.into_scale() {
        Ok(t) => t,
        Err(e) => return Err(e),
    };
    assert(offsets_of(&ls) =~= offsets_of(ls));
    let glo: Time<Glonass> = match gps.into_scale_with(ls) {
        Ok(t) => t,
        Err(e) => return Err(e),
    };
    let utc: Time<Utc> = match glo.into_scale() {
        Ok(t) => t,
        Err(e) => return Err(e),
    };
    let tai: Time<Tai> = match gps.into_scale() {
        Ok(t) => t,
        Err(e) => return Err(e),
    };
    Ok(ConversionChain { glonass: glo, gps, utc, tai })
}


/// The offset to TAI of the scale that `s` names.
pub open spec fn scale_offset(s: ScaleId) -> OffsetToTai {
    match s {
        ScaleId::Glonass => Glonass::spec_offset_to_tai(),
        ScaleId::Gps => Gps::spec_offset_to_tai(),
        ScaleId::Galileo => Galileo::spec_offset_to_tai(),
        ScaleId::Beidou => Beidou::spec_offset_to_tai(),
        ScaleId::Tai => Tai::spec_offset_to_tai(),
        ScaleId::Utc => Utc::spec_offset_to_tai(),
    }
}

/// A conversion between distinct scales is an identity exactly when both
/// have the same fixed TAI offset, a fixed shift exactly when both have
/// fixed but different offsets, and otherwise needs leap seconds, except
/// for the GLONASS ↔ UTC epoch shift.
pub proof fn lemma_kind_by_offsets(a: ScaleId, b: ScaleId)
    requires
        a != b,
    ensures
        (kind_of(a, b) is Identity) <==> (scale_offset(a) is Fixed && scale_offset(a) == scale_offset(
            b,
        )),
        (kind_of(a, b) is Fixed) <==> (scale_offset(a) is Fixed && scale_offset(b) is Fixed
            && scale_offset(a) != scale_offset(b)),
        (kind_of(a, b) is EpochShift) <==> ((a is Glonass && b is Utc) || (a is Utc && b is Glonass)),
        (kind_of(a, b) is Contextual) <==> ((scale_offset(a) is Contextual || scale_offset(b) is Contextual)
            && !((a is Glonass && b is Utc) || (a is Utc && b is Glonass))),
        !(kind_of(a, b) is SameScale),
{
}

/// The chain converts the BeiDou instant to GPS 14 s later (the same TAI
/// instant, 33 s after the BeiDou count), the GPS instant to UTC with the
/// provider's offsets, and UTC to GLONASS by the epoch shift; it succeeds
/// exactly when each hop does.
pub proof fn lemma_chain_hops(f: spec_fn(u64) -> i32, bdt: u64)
    ensures
        spec_chain(f, bdt as int) matches Ok((glo, gps, utc, tai)) ==> {
            &&& gps == bdt + 14_000_000_000
            &&& tai == bdt + 33_000_000_000
            &&& spec_gps_to_utc(f, gps as int) == Ok::<u64, GnssTimeError>(utc)
            &&& utc == glo + 757_371_600_000_000_000
        },
        bdt + 33_000_000_000 <= u64::MAX ==> (spec_gps_to_utc(f, bdt + 14_000_000_000) matches Ok(u)
            ==> (u >= 757_371_600_000_000_000 ==> spec_chain(f, bdt as int) is Ok)),
{
}

} // verus!
