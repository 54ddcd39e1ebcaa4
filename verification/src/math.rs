//! Fixed-point arithmetic helper.
//!
//! `mul_div` is the sole source of rounding in the system: every
//! proportional-fee and vesting computation routes through it, so rounding
//! uniformly floors — never over-deducting on fee computation and never
//! over-releasing on vesting computation.

use vstd::prelude::*;

verus! {

use vstd::arithmetic::div_mod::{lemma_div_is_ordered, lemma_div_multiples_vanish};
use vstd::arithmetic::mul::{lemma_mul_inequality, lemma_mul_upper_bound};

/// What `mul_div(a, b, d)` returns: the exact rational floor of
/// `a * b / d` when the denominator is positive and the floor fits the
/// native amount width, and no value at all otherwise.
pub open spec fn spec_mul_div(a: u64, b: u64, d: u64) -> Option<u64> {
    if d == 0 {
        None
    } else if a * b / (d as int) > u64::MAX {
        None
    } else {
        Some((a * b / (d as int)) as u64)
    }
}

/// `floor(a * b / denominator)` over an intermediate wide enough that the
/// product of two native amounts cannot overflow.  Returns `None` if the
/// denominator is zero or the final downcast to the native amount width
/// fails.
pub fn mul_div(a: u64, b: u64, denominator: u64) -> (r: Option<u64>)
    ensures
        r == spec_mul_div(a, b, denominator),
{
    if denominator == 0 {
        return None;
    }
    proof {
        lemma_mul_upper_bound(a as int, u64::MAX as int, b as int, u64::MAX as int);
    }
    let product: u128 = (a as u128) * (b as u128);
    let quotient: u128 = product / (denominator as u128);
    if quotient > u64::MAX as u128 {
        None
    } else {
        Some(quotient as u64)
    }
}

/// The floor never exceeds the basis when the ratio `b / d` is at most one:
/// fees computed as `mul_div(amount, numerator, denominator)` with
/// `numerator <= denominator` never exceed `amount`.
pub proof fn lemma_mul_div_le_basis(a: u64, b: u64, d: u64)
    requires
        0 < d,
        b <= d,
    ensures
        spec_mul_div(a, b, d) is Some,
        spec_mul_div(a, b, d).unwrap() <= a,
{
    lemma_mul_inequality(b as int, d as int, a as int);
    assert(a * b == b * a) by (nonlinear_arith);
    assert(a * d == d * a) by (nonlinear_arith);
    lemma_div_is_ordered(a * b, a * (d as int), d as int);
    lemma_div_multiples_vanish(a as int, d as int);
}

/// The released amount scales monotonically with the elapsed-time
/// numerator: more elapsed time never releases less.
pub proof fn lemma_mul_div_monotonic_in_b(a: u64, b1: u64, b2: u64, d: u64)
    requires
        0 < d,
        b1 <= b2,
    ensures
        spec_mul_div(a, b2, d) is Some ==> spec_mul_div(a, b1, d) is Some,
        spec_mul_div(a, b2, d) is Some ==> spec_mul_div(a, b1, d).unwrap() <= spec_mul_div(
            a,
            b2,
            d,
        ).unwrap(),
{
    lemma_mul_inequality(b1 as int, b2 as int, a as int);
    assert(a * b1 == b1 * a) by (nonlinear_arith);
    assert(a * b2 == b2 * a) by (nonlinear_arith);
    lemma_div_is_ordered(a * b1, a * b2, d as int);
}

/// A full period releases exactly the deposited amount:
/// `mul_div(a, d, d) == a`.
pub proof fn lemma_mul_div_full_period(a: u64, d: u64)
    requires
        0 < d,
    ensures
        spec_mul_div(a, d, d) == Some(a),
{
    assert(a * d == d * a) by (nonlinear_arith);
    lemma_div_multiples_vanish(a as int, d as int);
}

/// A zero numerator releases exactly nothing: `mul_div(a, 0, d) == 0`.
pub proof fn lemma_mul_div_zero(a: u64, d: u64)
    requires
        0 < d,
    ensures
        spec_mul_div(a, 0, d) == Some(0u64),
{
}

} // verus!
