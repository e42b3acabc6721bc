//! # Duration
//!
//! A signed time interval with nanosecond resolution, independent of any time
//! scale, epoch or calendar. Stored as an `i64` count of nanoseconds
//! (≈ ±292 years).
//!
//! - Operators (`+`, `-`, unary `-`) require the result to be representable.
//! - `checked_*` variants return `None` on overflow.
//! - `saturating_*` variants clamp to [`Duration::min_value`] /
//!   [`Duration::max_value`].
//! - `try_*` variants return [`GnssTimeError::Overflow`].
//!
//! The text form is `"<seconds>s <nanos>ns"` with an optional leading `-`
//! for the whole value; parsing is the exact inverse of
//! [`Duration::to_string`] ([`lemma_text_roundtrip`]).

use vstd::prelude::*;

use crate::arith::{i64_fits, trunc_div};
use crate::error::GnssTimeError;
use vstd::string::StringSliceAdditionalSpecFns;
use crate::text::{
    all_digits, ascii_bytes, dec, digits_value, is_digit, lemma_dec_ascii, lemma_dec_len,
    lemma_dec_parses, parse_u64, parse_u64_spec, push_dec,
};

verus! {

/// Nanoseconds per second.
const NANOS_PER_SECOND: i64 = 1_000_000_000;

/// Nanoseconds per millisecond.
const NANOS_PER_MILLI: i64 = 1_000_000;

/// Nanoseconds per microsecond.
const NANOS_PER_MICRO: i64 = 1_000;

/// A signed time interval with nanosecond precision.
#[derive(Debug, Clone, Copy, PartialEq, Eq, PartialOrd, Ord, Hash)]
pub struct Duration(i64);

impl View for Duration {
    type V = i64;

    /// The nanosecond count.
    closed spec fn view(&self) -> i64 {
        self.0
    }
}

impl Duration {
    /// The duration of `n` nanoseconds.
    pub closed spec fn spec_new(n: i64) -> Duration {
        Duration(n)
    }

    /// The view of a constructed duration is its count.
    pub broadcast proof fn lemma_spec_new(n: i64)
        ensures
            #[trigger] Duration::spec_new(n)@ == n,
    {
    }

    /// Two durations with the same count are equal.
    pub proof fn lemma_ext(a: Duration, b: Duration)
        requires
            a@ == b@,
        ensures
            a == b,
    {
    }

    /// Zero duration.
    pub fn zero() -> (r: Duration)
        ensures
            r@ == 0,
    {
        Duration(0)
    }

    /// Maximum representable duration.
    pub fn max_value() -> (r: Duration)
        ensures
            r@ == i64::MAX,
    {
        Duration(i64::MAX)
    }

    /// Minimum representable duration.
    pub fn min_value() -> (r: Duration)
        ensures
            r@ == i64::MIN,
    {
        Duration(i64::MIN)
    }

    /// One nanosecond.
    pub fn one_nanosecond() -> (r: Duration)
        ensures
            r@ == 1,
    {
        Duration(1)
    }

    /// One second.
    pub fn one_second() -> (r: Duration)
        ensures
            r@ == 1_000_000_000,
    {
        Duration(NANOS_PER_SECOND)
    }

    /// Creates a duration from nanoseconds.
    pub fn from_nanos(nanos: i64) -> (r: Duration)
        ensures
            r@ == nanos,
    {
        Duration(nanos)
    }

    /// Creates a duration from microseconds; the result must fit into `i64`.
    pub fn from_micros(micros: i64) -> (r: Duration)
        requires
            i64_fits(micros * 1_000),
        ensures
            r@ == micros * 1_000,
    {
        Duration(micros * NANOS_PER_MICRO)
    }

    /// Creates a duration from milliseconds; the result must fit into `i64`.
    pub fn from_millis(millis: i64) -> (r: Duration)
        requires
            i64_fits(millis * 1_000_000),
        ensures
            r@ == millis * 1_000_000,
    {
        Duration(millis * NANOS_PER_MILLI)
    }

    /// Creates a duration from seconds; the result must fit into `i64`.
    pub fn from_seconds(secs: i64) -> (r: Duration)
        requires
            i64_fits(secs * 1_000_000_000),
        ensures
            r@ == secs * 1_000_000_000,
    {
        Duration(secs * NANOS_PER_SECOND)
    }

    /// Creates a duration from minutes; the result must fit into `i64`.
    pub fn from_minutes(mins: i64) -> (r: Duration)
        requires
            i64_fits(mins * 60_000_000_000),
        ensures
            r@ == mins * 60_000_000_000,
    {
        Duration(mins * 60_000_000_000)
    }

    /// Creates a duration from hours; the result must fit into `i64`.
    pub fn from_hours(hours: i64) -> (r: Duration)
        requires
            i64_fits(hours * 3_600_000_000_000),
        ensures
            r@ == hours * 3_600_000_000_000,
    {
        Duration(hours * 3_600_000_000_000)
    }

    /// Creates a duration from days; the result must fit into `i64`.
    pub fn from_days(days: i64) -> (r: Duration)
        requires
            i64_fits(days * 86_400_000_000_000),
        ensures
            r@ == days * 86_400_000_000_000,
    {
        Duration(days * 86_400_000_000_000)
    }

    /// `count` units of `unit` nanoseconds, or `None` on overflow.
    fn checked_scaled(count: i64, unit: i64) -> (r: Option<Duration>)
        requires
            0 < unit <= 86_400_000_000_000,
        ensures
            r is Some <==> i64_fits(count * unit),
            r matches Some(d) ==> d@ == count * unit,
    {
        assert(-0x100_0000_0000_0000_0000_0000_0000_0000 < count * unit
            < 0x100_0000_0000_0000_0000_0000_0000_0000) by (nonlinear_arith)
            requires
                0 < unit <= 86_400_000_000_000,
                i64::MIN <= count <= i64::MAX,
        ;
        let wide: i128 = count as i128 * unit as i128;
        if wide < i64::MIN as i128 || wide > i64::MAX as i128 {
            None
        } else {
            Some(Duration(wide as i64))
        }
    }

    /// Microseconds to a duration, or `None` on overflow.
    pub fn checked_from_micros(micros: i64) -> (r: Option<Duration>)
        ensures
            r is Some <==> i64_fits(micros * 1_000),
            r matches Some(d) ==> d@ == micros * 1_000,
    {
        Self::checked_scaled(micros, NANOS_PER_MICRO)
    }

    /// Milliseconds to a duration, or `None` on overflow.
    pub fn checked_from_millis(millis: i64) -> (r: Option<Duration>)
        ensures
            r is Some <==> i64_fits(millis * 1_000_000),
            r matches Some(d) ==> d@ == millis * 1_000_000,
    {
        Self::checked_scaled(millis, NANOS_PER_MILLI)
    }

    /// Seconds to a duration, or `None` on overflow.
    pub fn checked_from_seconds(secs: i64) -> (r: Option<Duration>)
        ensures
            r is Some <==> i64_fits(secs * 1_000_000_000),
            r matches Some(d) ==> d@ == secs * 1_000_000_000,
    {
        Self::checked_scaled(secs, NANOS_PER_SECOND)
    }

    /// Minutes to a duration, or `None` on overflow.
    pub fn checked_from_minutes(mins: i64) -> (r: Option<Duration>)
        ensures
            r is Some <==> i64_fits(mins * 60_000_000_000),
            r matches Some(d) ==> d@ == mins * 60_000_000_000,
    {
        Self::checked_scaled(mins, 60_000_000_000)
    }

    /// Hours to a duration, or `None` on overflow.
    pub fn checked_from_hours(hours: i64) -> (r: Option<Duration>)
        ensures
            r is Some <==> i64_fits(hours * 3_600_000_000_000),
            r matches Some(d) ==> d@ == hours * 3_600_000_000_000,
    {
        Self::checked_scaled(hours, 3_600_000_000_000)
    }

    /// Days to a duration, or `None` on overflow.
    pub fn checked_from_days(days: i64) -> (r: Option<Duration>)
        ensures
            r is Some <==> i64_fits(days * 86_400_000_000_000),
            r matches Some(d) ==> d@ == days * 86_400_000_000_000,
    {
        Self::checked_scaled(days, 86_400_000_000_000)
    }

    /// The raw nanosecond count.
    pub fn as_nanos(self) -> (r: i64)
        ensures
            r == self@,
    {
        self.0
    }

    /// Whole microseconds, truncated toward zero.
    pub fn as_micros(self) -> (r: i64)
        ensures
            r == trunc_div(self@ as int, 1_000 as int),
    {
        self.0 / NANOS_PER_MICRO
    }

    /// Whole milliseconds, truncated toward zero.
    pub fn as_millis(self) -> (r: i64)
        ensures
            r == trunc_div(self@ as int, 1_000_000 as int),
    {
        self.0 / NANOS_PER_MILLI
    }

    /// Whole seconds, truncated toward zero.
    pub fn as_seconds(self) -> (r: i64)
        ensures
            r == trunc_div(self@ as int, 1_000_000_000 as int),
    {
        self.0 / NANOS_PER_SECOND
    }

    /// `true` if positive.
    pub fn is_positive(self) -> (r: bool)
        ensures
            r == (self@ > 0),
    {
        self.0 > 0
    }

    /// `true` if negative.
    pub fn is_negative(self) -> (r: bool)
        ensures
            r == (self@ < 0),
    {
        self.0 < 0
    }

    /// `true` if zero.
    pub fn is_zero(self) -> (r: bool)
        ensures
            r == (self@ == 0),
    {
        self.0 == 0
    }

    /// Absolute value, or `None` for [`Duration::min_value`].
    pub fn abs(self) -> (r: Option<Duration>)
        ensures
            r is Some <==> self@ != i64::MIN,
            r matches Some(d) ==> d@ == (if self@ < 0 {
                -self@
            } else {
                self@ as int
            }),
    {
        if self.0 == i64::MIN {
            None
        } else if self.0 < 0 {
            Some(Duration(-self.0))
        } else {
            Some(self)
        }
    }

    /// Checked addition.
    pub fn checked_add(self, rhs: Duration) -> (r: Option<Duration>)
        ensures
            r is Some <==> i64_fits(self@ + rhs@),
            r matches Some(d) ==> d@ == self@ + rhs@,
    {
        let sum: i128 = self.0 as i128 + rhs.0 as i128;
        if sum < i64::MIN as i128 || sum > i64::MAX as i128 {
            None
        } else {
            Some(Duration(sum as i64))
        }
    }

    /// Checked subtraction.
    pub fn checked_sub(self, rhs: Duration) -> (r: Option<Duration>)
        ensures
            r is Some <==> i64_fits(self@ - rhs@),
            r matches Some(d) ==> d@ == self@ - rhs@,
    {
        let diff: i128 = self.0 as i128 - rhs.0 as i128;
        if diff < i64::MIN as i128 || diff > i64::MAX as i128 {
            None
        } else {
            Some(Duration(diff as i64))
        }
    }

    /// Saturating addition: the sum clamped to the `i64` range.
    pub fn saturating_add(self, rhs: Duration) -> (r: Duration)
        ensures
            r@ == clamp_i64(self@ + rhs@),
    {
        let sum: i128 = self.0 as i128 + rhs.0 as i128;
        Duration(clamp_i128(sum))
    }

    /// Saturating subtraction: the difference clamped to the `i64` range.
    pub fn saturating_sub(self, rhs: Duration) -> (r: Duration)
        ensures
            r@ == clamp_i64(self@ - rhs@),
    {
        let diff: i128 = self.0 as i128 - rhs.0 as i128;
        Duration(clamp_i128(diff))
    }

    /// Fallible addition: [`GnssTimeError::Overflow`] if not representable.
    pub fn try_add(self, rhs: Duration) -> (r: Result<Duration, GnssTimeError>)
        ensures
            r is Ok <==> i64_fits(self@ + rhs@),
            r matches Ok(d) ==> d@ == self@ + rhs@,
            r matches Err(e) ==> e == GnssTimeError::Overflow,
    {
        match self.checked_add(rhs) {
            Some(d) => Ok(d),
            None => Err(GnssTimeError::Overflow),
        }
    }

    /// Fallible subtraction: [`GnssTimeError::Overflow`] if not representable.
    pub fn try_sub(self, rhs: Duration) -> (r: Result<Duration, GnssTimeError>)
        ensures
            r is Ok <==> i64_fits(self@ - rhs@),
            r matches Ok(d) ==> d@ == self@ - rhs@,
            r matches Err(e) ==> e == GnssTimeError::Overflow,
    {
        match self.checked_sub(rhs) {
            Some(d) => Ok(d),
            None => Err(GnssTimeError::Overflow),
        }
    }

    /// The nanosecond count as an unsigned magnitude for a non-negative
    /// duration, or [`GnssTimeError::OutOfRange`] for a negative one (a
    /// `core::time::Duration` cannot be negative).
    pub fn to_unsigned_nanos(self) -> (r: Result<u64, GnssTimeError>)
        ensures
            r is Ok <==> self@ >= 0,
            r matches Ok(n) ==> n == self@,
            r matches Err(e) ==> e == GnssTimeError::OutOfRange,
    {
        if self.0 < 0 {
            Err(GnssTimeError::OutOfRange)
        } else {
            Ok(self.0 as u64)
        }
    }

    /// A duration from an unsigned nanosecond count, or
    /// [`GnssTimeError::Overflow`] above `i64::MAX`.
    pub fn from_unsigned_nanos(nanos: u128) -> (r: Result<Duration, GnssTimeError>)
        ensures
            r is Ok <==> nanos <= i64::MAX,
            r matches Ok(d) ==> d@ == nanos,
            r matches Err(e) ==> e == GnssTimeError::Overflow,
    {
        if nanos > i64::MAX as u128 {
            Err(GnssTimeError::Overflow)
        } else {
            Ok(Duration(nanos as i64))
        }
    }

    /// The text form `"<seconds>s <nanos>ns"`, with a leading `-` for a
    /// negative duration (e.g. `"-1s 500000000ns"`).
    pub fn to_string(&self) -> (r: String)
        ensures
            r@ == duration_text(self@ as int),
    {
        let abs: u64 = if self.0 < 0 {
            (-(self.0 as i128)) as u64
        } else {
            self.0 as u64
        };
        let mut s = String::new();
        proof {
            reveal_strlit("-");
            reveal_strlit("s ");
            reveal_strlit("ns");
        }
        if self.0 < 0 {
            s.append("-");
        }
        push_dec(&mut s, abs / 1_000_000_000);
        s.append("s ");
        push_dec(&mut s, abs % 1_000_000_000);
        s.append("ns");
        assert(s@ =~= duration_text(self@ as int));
        s
    }
}

/// `x` clamped to the range of `i64`.
pub open spec fn clamp_i64(x: int) -> int {
    if x < i64::MIN {
        i64::MIN as int
    } else if x > i64::MAX {
        i64::MAX as int
    } else {
        x
    }
}

/// `x` clamped to the range of `i64`, computed.
fn clamp_i128(x: i128) -> (r: i64)
    ensures
        r == clamp_i64(x as int),
{
    if x < i64::MIN as i128 {
        i64::MIN
    } else if x > i64::MAX as i128 {
        i64::MAX
    } else {
        x as i64
    }
}

/// Magnitude of a nanosecond count.
pub open spec fn abs_int(n: int) -> nat {
    if n < 0 {
        (-n) as nat
    } else {
        n as nat
    }
}

/// The text form of a duration of `n` nanoseconds.
pub open spec fn duration_text(n: int) -> Seq<char> {
    let a = abs_int(n);
    (if n < 0 {
        seq!['-']
    } else {
        Seq::<char>::empty()
    }) + dec(a / 1_000_000_000) + seq!['s', ' '] + dec(a % 1_000_000_000) + seq!['n', 's']
}

impl core::ops::Add for Duration {
    type Output = Duration;

    /// Sum of two durations; the sum must be representable.
    fn add(self, rhs: Duration) -> (r: Duration) {
        Duration(self.0 + rhs.0)
    }
}

impl vstd::std_specs::ops::AddSpecImpl for Duration {
    open spec fn obeys_add_spec() -> bool {
        true
    }

    open spec fn add_req(self, rhs: Duration) -> bool {
        i64_fits(self@ + rhs@)
    }

    open spec fn add_spec(self, rhs: Duration) -> Duration {
        Duration::spec_new((self@ + rhs@) as i64)
    }
}

impl core::ops::Sub for Duration {
    type Output = Duration;

    /// Difference of two durations; it must be representable.
    fn sub(self, rhs: Duration) -> (r: Duration) {
        Duration(self.0 - rhs.0)
    }
}

impl vstd::std_specs::ops::SubSpecImpl for Duration {
    open spec fn obeys_sub_spec() -> bool {
        true
    }

    open spec fn sub_req(self, rhs: Duration) -> bool {
        i64_fits(self@ - rhs@)
    }

    open spec fn sub_spec(self, rhs: Duration) -> Duration {
        Duration::spec_new((self@ - rhs@) as i64)
    }
}

impl core::ops::Neg for Duration {
    type Output = Duration;

    /// Negation; not defined for [`Duration::min_value`].
    fn neg(self) -> (r: Duration) {
        Duration(-self.0)
    }
}

impl vstd::std_specs::ops::NegSpecImpl for Duration {
    open spec fn obeys_neg_spec() -> bool {
        true
    }

    open spec fn neg_req(self) -> bool {
        self@ != i64::MIN
    }

    open spec fn neg_spec(self) -> Duration {
        Duration::spec_new((-self@) as i64)
    }
}

impl core::ops::AddAssign for Duration {
    /// In-place addition; the sum must be representable.
    fn add_assign(&mut self, rhs: Duration)
        requires
            i64_fits(old(self)@ + rhs@),
        ensures
            final(self)@ == old(self)@ + rhs@,
    {
        self.0 = self.0 + rhs.0;
    }
}

impl core::ops::SubAssign for Duration {
    /// In-place subtraction; the difference must be representable.
    fn sub_assign(&mut self, rhs: Duration)
        requires
            i64_fits(old(self)@ - rhs@),
        ensures
            final(self)@ == old(self)@ - rhs@,
    {
        self.0 = self.0 - rhs.0;
    }
}

impl Default for Duration {
    /// The zero duration.
    fn default() -> (r: Duration)
        ensures
            r@ == 0,
    {
        Duration(0)
    }
}

impl From<Duration> for i64 {
    /// The raw nanosecond count.
    fn from(value: Duration) -> (r: i64) {
        value.0
    }
}

impl vstd::std_specs::convert::FromSpecImpl<Duration> for i64 {
    open spec fn obeys_from_spec() -> bool {
        true
    }

    open spec fn from_spec(v: Duration) -> i64 {
        v@
    }
}

impl From<i64> for Duration {
    /// A duration of `value` nanoseconds.
    fn from(value: i64) -> (r: Duration) {
        Duration(value)
    }
}

impl vstd::std_specs::convert::FromSpecImpl<i64> for Duration {
    open spec fn obeys_from_spec() -> bool {
        true
    }

    open spec fn from_spec(v: i64) -> Duration {
        Duration::spec_new(v)
    }
}

/// The total number of nanoseconds that a `core::time::Duration` holds, as
/// `core::time::Duration::as_nanos` reports it.
pub uninterp spec fn std_duration_nanos(d: core::time::Duration) -> u128;

/// Calls `core::time::Duration::as_nanos`, whose documentation says it
/// returns the total number of nanoseconds the duration contains.
#[verifier::external_body]
fn std_duration_as_nanos(d: &core::time::Duration) -> (r: u128)
    ensures
        r == std_duration_nanos(*d),
{
    d.as_nanos()
}

/// Calls `core::time::Duration::from_nanos`, whose documentation says it
/// creates a duration of exactly the given number of nanoseconds.
#[verifier::external_body]
fn std_duration_from_nanos(nanos: u64) -> (r: core::time::Duration)
    ensures
        std_duration_nanos(r) == nanos,
{
    core::time::Duration::from_nanos(nanos)
}

impl TryFrom<core::time::Duration> for Duration {
    type Error = GnssTimeError;

    /// Converts a (never negative) `core::time::Duration`;
    /// [`GnssTimeError::Overflow`] beyond `i64::MAX` nanoseconds.
    fn try_from(value: core::time::Duration) -> (r: Result<Duration, GnssTimeError>)
        ensures
            r is Ok <==> std_duration_nanos(value) <= i64::MAX,
            r matches Ok(d) ==> d@ == std_duration_nanos(value),
            r matches Err(e) ==> e == GnssTimeError::Overflow,
    {
        Duration::from_unsigned_nanos(std_duration_as_nanos(&value))
    }
}

impl vstd::std_specs::convert::TryFromSpecImpl<core::time::Duration> for Duration {
    open spec fn obeys_try_from_spec() -> bool {
        true
    }

    open spec fn try_from_spec(v: core::time::Duration) -> Result<Duration, GnssTimeError> {
        if std_duration_nanos(v) <= i64::MAX {
            Ok(Duration::spec_new(std_duration_nanos(v) as i64))
        } else {
            Err(GnssTimeError::Overflow)
        }
    }
}

impl TryFrom<Duration> for core::time::Duration {
    type Error = GnssTimeError;

    /// Converts to a `core::time::Duration`; [`GnssTimeError::OutOfRange`]
    /// for a negative duration.
    fn try_from(value: Duration) -> (r: Result<core::time::Duration, GnssTimeError>)
        ensures
            r is Ok <==> value@ >= 0,
            r matches Ok(d) ==> std_duration_nanos(d) == value@,
            r matches Err(e) ==> e == GnssTimeError::OutOfRange,
    {
        match value.to_unsigned_nanos() {
            Ok(n) => Ok(std_duration_from_nanos(n)),
            Err(e) => Err(e),
        }
    }
}

impl vstd::std_specs::convert::TryFromSpecImpl<Duration> for core::time::Duration {
    /// A `core::time::Duration` cannot be written down in a specification,
    /// so the conversion states its result in its own `ensures` instead.
    open spec fn obeys_try_from_spec() -> bool {
        false
    }

    open spec fn try_from_spec(v: Duration) -> Result<core::time::Duration, GnssTimeError> {
        Err(GnssTimeError::OutOfRange)
    }
}

// ---------------------------------------------------------------------------
// Parsing
// ---------------------------------------------------------------------------

/// Message for input without the separating space.
pub const MSG_SHAPE: &'static str = "expected '<seconds>s <nanos>ns'";

/// Message for a seconds field without its `s` suffix.
pub const MSG_SECS_SUFFIX: &'static str = "expected 's' suffix on seconds field";

/// Message for a nanoseconds field without its `ns` suffix.
pub const MSG_NANOS_SUFFIX: &'static str = "expected 'ns' suffix on nanos field";

/// Message for a signed nanoseconds field.
pub const MSG_NANOS_SIGN: &'static str = "nanos field must be non-negative; the sign belongs to the whole value";

/// Message for an unreadable seconds value.
pub const MSG_SECS_VALUE: &'static str = "invalid seconds value";

/// Message for an unreadable nanoseconds value.
pub const MSG_NANOS_VALUE: &'static str = "invalid nanoseconds value";

/// Index of the first byte `c` in `b` at or after `i`, or `-1`.
pub open spec fn index_from(b: Seq<u8>, c: u8, i: int) -> int
    decreases b.len() - i,
{
    if i < 0 || i >= b.len() {
        -1
    } else if b[i] == c {
        i
    } else {
        index_from(b, c, i + 1)
    }
}

/// The result of parsing the bytes `b` as `"<seconds>s <nanos>ns"`.
///
/// The text splits at its first space; the seconds field must end in `s` and
/// the nanoseconds field in `ns`. The optional `-` in front of the seconds
/// belongs to the whole value; both fields are read as unsigned decimal
/// numbers and combined as `seconds · 10⁹ + nanos`.
pub open spec fn parse_duration_spec(b: Seq<u8>) -> Result<i64, GnssTimeError> {
    let sp = index_from(b, 32, 0);
    if sp < 0 {
        Err(GnssTimeError::ParseError(MSG_SHAPE))
    } else {
        let secs_field = b.subrange(0, sp);
        let nanos_field = b.subrange(sp + 1, b.len() as int);
        if secs_field.len() == 0 || secs_field.last() != 115 {
            Err(GnssTimeError::ParseError(MSG_SECS_SUFFIX))
        } else if nanos_field.len() < 2 || nanos_field[nanos_field.len() - 2] != 110
            || nanos_field.last() != 115 {
            Err(GnssTimeError::ParseError(MSG_NANOS_SUFFIX))
        } else {
            let secs_str = secs_field.drop_last();
            let nanos_str = nanos_field.subrange(0, nanos_field.len() - 2);
            if nanos_str.len() > 0 && nanos_str[0] == 45 {
                Err(GnssTimeError::ParseError(MSG_NANOS_SIGN))
            } else {
                let negative = secs_str.len() > 0 && secs_str[0] == 45;
                let mag_str = if negative {
                    secs_str.drop_first()
                } else {
                    secs_str
                };
                match parse_u64_spec(mag_str) {
                    None => Err(GnssTimeError::ParseError(MSG_SECS_VALUE)),
                    Some(secs) => match parse_u64_spec(nanos_str) {
                        None => Err(GnssTimeError::ParseError(MSG_NANOS_VALUE)),
                        Some(nanos) => {
                            let mag = secs * 1_000_000_000 + nanos;
                            if mag > u64::MAX {
                                Err(GnssTimeError::Overflow)
                            } else if negative {
                                if mag > 0x8000_0000_0000_0000 {
                                    Err(GnssTimeError::Overflow)
                                } else {
                                    Ok((-mag) as i64)
                                }
                            } else if mag > i64::MAX {
                                Err(GnssTimeError::Overflow)
                            } else {
                                Ok(mag as i64)
                            }
                        },
                    },
                }
            }
        }
    }
}

/// Finds the first byte `c` in `b`.
fn find_byte(b: &[u8], c: u8) -> (r: usize)
    ensures
        r <= b@.len(),
        r == b@.len() <==> index_from(b@, c, 0) < 0,
        r < b@.len() ==> r == index_from(b@, c, 0),
{
    let mut i: usize = 0;
    while i < b.len()
        invariant
            i <= b@.len(),
            index_from(b@, c, 0) == index_from(b@, c, i as int),
        decreases b@.len() - i,
    {
        if b[i] == c {
            return i;
        }
        i = i + 1;
    }
    i
}

impl core::str::FromStr for Duration {
    type Err = GnssTimeError;

    /// Parses `"<seconds>s <nanos>ns"`, the exact inverse of
    /// [`Duration::to_string`].
    ///
    /// [`GnssTimeError::ParseError`] for a structural mismatch (missing `s` or
    /// `ns` suffix, missing separating space, non-numeric field, negative
    /// nanoseconds field); [`GnssTimeError::Overflow`] if the value does not
    /// fit into `i64`.
    fn from_str(s: &str) -> (r: Result<Duration, GnssTimeError>)
        ensures
            r == (match parse_duration_spec(s.spec_bytes()) {
                Ok(n) => Ok::<Duration, GnssTimeError>(Duration::spec_new(n)),
                Err(e) => Err(e),
            }),
    {
        let b = s.as_bytes();
        let len = b.len();
        let sp = find_byte(b, 32);
        if sp == len {
            return Err(GnssTimeError::ParseError(MSG_SHAPE));
        }
        let ghost secs_field = b@.subrange(0, sp as int);
        let ghost nanos_field = b@.subrange(sp + 1, len as int);
        if sp == 0 || b[sp - 1] != 115 {
            return Err(GnssTimeError::ParseError(MSG_SECS_SUFFIX));
        }
        if len - (sp + 1) < 2 || b[len - 2] != 110 || b[len - 1] != 115 {
            return Err(GnssTimeError::ParseError(MSG_NANOS_SUFFIX));
        }
        let secs_end = sp - 1;
        let nanos_start = sp + 1;
        let nanos_end = len - 2;
        assert(secs_field.drop_last() =~= b@.subrange(0, secs_end as int));
        assert(nanos_field.subrange(0, nanos_field.len() - 2) =~= b@.subrange(
            nanos_start as int,
            nanos_end as int,
        ));
        if nanos_start < nanos_end && b[nanos_start] == 45 {
            return Err(GnssTimeError::ParseError(MSG_NANOS_SIGN));
        }
        let negative = secs_end > 0 && b[0] == 45;
        let secs_start: usize = if negative {
            1
        } else {
            0
        };
        assert(b@.subrange(secs_start as int, secs_end as int) =~= (if negative {
            b@.subrange(0, secs_end as int).drop_first()
        } else {
            b@.subrange(0, secs_end as int)
        }));
        let secs = match parse_u64(b, secs_start, secs_end) {
            Some(v) => v,
            None => {
                return Err(GnssTimeError::ParseError(MSG_SECS_VALUE));
            },
        };
        let nanos = match parse_u64(b, nanos_start, nanos_end) {
            Some(v) => v,
            None => {
                return Err(GnssTimeError::ParseError(MSG_NANOS_VALUE));
            },
        };
        let mag: u128 = secs as u128 * 1_000_000_000 + nanos as u128;
        if mag > u64::MAX as u128 {
            return Err(GnssTimeError::Overflow);
        }
        if negative {
            if mag > 0x8000_0000_0000_0000 {
                Err(GnssTimeError::Overflow)
            } else {
                Ok(Duration((-(mag as i128)) as i64))
            }
        } else if mag > i64::MAX as u128 {
            Err(GnssTimeError::Overflow)
        } else {
            Ok(Duration(mag as i64))
        }
    }
}


/// In `b`, the first byte `c` at or after `i` is at `k` when none comes
/// before it.
proof fn lemma_index_from_at(b: Seq<u8>, c: u8, i: int, k: int)
    requires
        0 <= i <= k < b.len(),
        b[k] == c,
        forall|j: int| i <= j < k ==> b[j] != c,
    ensures
        index_from(b, c, i) == k,
    decreases k - i,
{
    if i < k {
        lemma_index_from_at(b, c, i + 1, k);
    }
}

/// Parsing the text of a duration gives the duration back: `from_str` is
/// the exact inverse of `to_string`.
pub proof fn lemma_text_roundtrip(n: i64)
    ensures
        parse_duration_spec(vstd::utf8::encode_utf8(duration_text(n as int))) == Ok::<
            i64,
            GnssTimeError,
        >(n),
{
    let a = abs_int(n as int);
    let q = a / 1_000_000_000;
    let r = a % 1_000_000_000;
    let sign = if n < 0 {
        seq!['-']
    } else {
        Seq::<char>::empty()
    };
    let d1 = dec(q);
    let d2 = dec(r);
    let t = duration_text(n as int);
    assert(t == sign + d1 + seq!['s', ' '] + d2 + seq!['n', 's']);
    lemma_dec_ascii(q);
    lemma_dec_ascii(r);
    lemma_dec_parses(q);
    lemma_dec_parses(r);
    assert(vstd::utf8::is_ascii_chars(t)) by {
        assert forall|i: int| 0 <= i < t.len() implies '\0' <= #[trigger] t[i] <= '\u{7f}' by {
            let p = sign.len() as int;
            if p <= i < p + d1.len() {
                assert(t[i] == d1[i - p]);
            } else if p + d1.len() + 2 <= i < p + d1.len() + 2 + d2.len() {
                assert(t[i] == d2[i - p - d1.len() - 2]);
            }
        }
    }
    vstd::utf8::is_ascii_chars_encode_utf8(t);
    let b = vstd::utf8::encode_utf8(t);
    assert(b =~= ascii_bytes(t));
    let p = sign.len() as int;
    let sp = p + d1.len();
    let bs = ascii_bytes(sign);
    let b1 = ascii_bytes(d1);
    let b2 = ascii_bytes(d2);
    assert(b =~= bs + b1 + seq![115u8, 32u8] + b2 + seq![110u8, 115u8]);
    assert forall|j: int| 0 <= j < sp + 1 implies b[j] != 32 by {
        if p <= j < sp {
            assert(b[j] == b1[j - p]);
            assert(is_digit(b1[j - p]));
        }
    }
    lemma_index_from_at(b, 32, 0, sp + 1);
    let secs_field = b.subrange(0, sp + 1);
    let nanos_field = b.subrange(sp + 2, b.len() as int);
    assert(nanos_field =~= b2 + seq![110u8, 115u8]);
    assert(secs_field.drop_last() =~= bs + b1);
    assert(nanos_field.subrange(0, nanos_field.len() - 2) =~= b2);
    assert(is_digit(b2[0]));
    assert(is_digit(b1[0]));
    if n < 0 {
        assert((bs + b1).drop_first() =~= b1);
    } else {
        assert(bs + b1 =~= b1);
    }
    assert(q * 1_000_000_000 + r == a);
}

} // verus!
