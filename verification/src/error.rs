//! Error type shared by every fallible operation of the crate.
//!
//! - No hidden failure modes: every fallible operation returns `Result`.
//! - Each variant names one recoverable class of failure.

use vstd::prelude::*;

verus! {

/// Errors returned by fallible operations.
///
/// Used for arithmetic overflow, invalid inputs, unparsable text and missing
/// leap-second data.
#[derive(Debug, Clone, Copy, PartialEq, Eq, Hash)]
#[non_exhaustive]
pub enum GnssTimeError {
    /// Arithmetic overflow in a nanosecond computation.
    Overflow,
    /// The input is invalid for the operation; the text says why.
    InvalidInput(&'static str),
    /// A string could not be parsed into the requested type.
    ParseError(&'static str),
    /// The operation needs leap-second information (UTC, GLONASS).
    LeapSecondsRequired,
    /// The value lies outside the representable range.
    OutOfRange,
}

/// The human-readable message of an error.
pub open spec fn error_message(e: GnssTimeError) -> Seq<char> {
    match e {
        GnssTimeError::Overflow => "arithmetic overflow in nanoseconds"@,
        GnssTimeError::InvalidInput(msg) => "invalid input: "@ + msg@,
        GnssTimeError::LeapSecondsRequired => "leap-second data required"@,
        GnssTimeError::OutOfRange => "timestamp is out of representable range"@,
        GnssTimeError::ParseError(msg) => "parse error: "@ + msg@,
    }
}

impl GnssTimeError {
    /// Renders the error as text, e.g. `"invalid input: <reason>"`.
    pub fn to_string(&self) -> (r: String)
        ensures
            r@ == error_message(*self),
    {
        match self {
            GnssTimeError::Overflow => String::from_str("arithmetic overflow in nanoseconds"),
            GnssTimeError::InvalidInput(msg) => {
                let mut s = String::from_str("invalid input: ");
                s.append(msg);
                s
            },
            GnssTimeError::LeapSecondsRequired => String::from_str("leap-second data required"),
            GnssTimeError::OutOfRange => String::from_str(
                "timestamp is out of representable range",
            ),
            GnssTimeError::ParseError(msg) => {
                let mut s = String::from_str("parse error: ");
                s.append(msg);
                s
            },
        }
    }
}

} // verus!
