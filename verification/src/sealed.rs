//! The seal that keeps [`crate::scale::TimeScale`] closed to implementations
//! outside this crate.

use vstd::prelude::*;

verus! {

/// Implemented only by the time-scale markers of this crate.
pub trait Sealed {}

} // verus!
