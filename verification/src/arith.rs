//! Arithmetic facts shared by the calendar and time-scale proofs.

use vstd::prelude::*;
use vstd::arithmetic::div_mod::{
    lemma_fundamental_div_mod, lemma_fundamental_div_mod_converse,
};

verus! {

/// Largest value of `i64`, as a mathematical integer.
pub open spec fn i64_fits(x: int) -> bool {
    i64::MIN <= x <= i64::MAX
}

/// `x` fits into a `u64`.
pub open spec fn u64_fits(x: int) -> bool {
    0 <= x <= u64::MAX
}

/// Division of `a` by a positive `b`, rounded toward zero (the semantics of
/// Rust's `/` on signed integers).
pub open spec fn trunc_div(a: int, b: int) -> int {
    if a >= 0 {
        a / b
    } else {
        -((-a) / b)
    }
}

/// Adding a whole multiple of the divisor shifts the floored quotient by that
/// multiple and leaves the remainder unchanged.
pub proof fn lemma_div_shift(a: int, k: int, b: int)
    requires
        b > 0,
    ensures
        (a + k * b) / b == a / b + k,
        (a + k * b) % b == a % b,
{
    lemma_fundamental_div_mod(a, b);
    let q = a / b;
    let r = a % b;
    assert(a + k * b == (q + k) * b + r) by (nonlinear_arith)
        requires
            a == b * q + r,
    ;
    lemma_fundamental_div_mod_converse(a + k * b, b, q + k, r);
}

/// Quotient and remainder of a value written as `q * b + r` with `0 <= r < b`.
pub proof fn lemma_div_mod_of(x: int, q: int, r: int, b: int)
    requires
        b > 0,
        0 <= r < b,
        x == q * b + r,
    ensures
        x / b == q,
        x % b == r,
{
    lemma_fundamental_div_mod_converse(x, b, q, r);
}

} // verus!
