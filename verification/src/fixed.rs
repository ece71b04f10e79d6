//! Fixed-point arithmetic for quantity values.
//!
//! A quantity value of 1.0 is represented by [`SCALE`].  All the rule
//! constants of the game (0.1 pickup strength, the 0.0301 fervor credit,
//! the 0.999 win threshold, ...) are exact multiples of `1 / SCALE`, so
//! the rules below lose nothing against their real-valued statement.

use vstd::prelude::*;
use vstd::arithmetic::div_mod::lemma_div_is_ordered;

verus! {

/// Fixed-point representation of 1.0.
pub const SCALE: i64 = 10_000;

/// Largest magnitude a temporary stack may take.  The stack itself is
/// unclamped by the rules, but every stored value needs enough headroom
/// that products with factors up to `SCALE` stay within `i64`.
pub const STACK_LIMIT: i64 = 10_000_000_000;

/// `x` clamped into the unit interval `[0, SCALE]`.
pub open spec fn spec_clamp_unit(x: int) -> int {
    if x < 0 {
        0
    } else if x > SCALE {
        SCALE as int
    } else {
        x
    }
}

/// Scaled product `a * f / SCALE`, the fixed-point counterpart of
/// multiplying a value by a factor; the quotient is rounded toward zero.
pub open spec fn spec_scale_mul(a: int, f: int) -> int {
    if a * f >= 0 {
        (a * f) / (SCALE as int)
    } else {
        -((-(a * f)) / (SCALE as int))
    }
}

/// Rounding toward zero never grows the magnitude of the true quotient,
/// so a factor of at most `SCALE` (that is, at most 1.0) yields a result
/// of at most the input's magnitude.
pub proof fn lemma_scale_mul_bounds(a: int, f: int)
    requires
        0 <= f <= SCALE,
    ensures
        a >= 0 ==> 0 <= spec_scale_mul(a, f) <= a,
        a < 0 ==> a <= spec_scale_mul(a, f) <= 0,
{
    if a >= 0 {
        assert(a * f >= 0) by (nonlinear_arith)
            requires a >= 0 && f >= 0;
        assert(a * f <= a * SCALE) by (nonlinear_arith)
            requires a >= 0 && f <= SCALE;
        lemma_div_is_ordered(a * f, a * (SCALE as int), SCALE as int);
        assert(a * (SCALE as int) / (SCALE as int) == a) by (nonlinear_arith);
        assert((a * f) / (SCALE as int) >= 0) by (nonlinear_arith)
            requires a * f >= 0;
    } else {
        assert(a * f <= 0) by (nonlinear_arith)
            requires a < 0 && f >= 0;
        if a * f == 0 {
            assert(spec_scale_mul(a, f) == 0);
        } else {
            let m = -(a * f);
            assert(m > 0);
            assert(m <= (-a) * SCALE) by (nonlinear_arith)
                requires a < 0 && 0 <= f <= SCALE && m == -(a * f);
            lemma_div_is_ordered(m, (-a) * (SCALE as int), SCALE as int);
            assert((-a) * (SCALE as int) / (SCALE as int) == -a) by (nonlinear_arith);
            assert(m / (SCALE as int) >= 0) by (nonlinear_arith)
                requires m > 0;
        }
    }
}

/// A stack-bounded value times a unit-interval factor stays well within
/// `i64`, since `STACK_LIMIT * SCALE` does.
pub proof fn lemma_unit_product_fits(a: int, f: int)
    requires
        -STACK_LIMIT <= a <= STACK_LIMIT,
        0 <= f <= SCALE,
    ensures
        -(STACK_LIMIT as int * SCALE as int) <= a * f <= STACK_LIMIT as int * SCALE as int,
        i64::MIN < a * f <= i64::MAX,
{
    assert(-(STACK_LIMIT as int * SCALE as int) <= a * f <= STACK_LIMIT as int * SCALE as int)
        by (nonlinear_arith)
        requires -STACK_LIMIT <= a <= STACK_LIMIT && 0 <= f <= SCALE;
}

/// Clamp a value into the unit interval `[0, SCALE]`.
pub fn clamp_unit(x: i64) -> (r: i64)
    ensures
        r == spec_clamp_unit(x as int),
{
    if x < 0 {
        0
    } else if x > SCALE {
        SCALE
    } else {
        x
    }
}

/// Multiply a fixed-point value by a fixed-point factor, rounding the
/// scaled-down product toward zero.
pub fn scale_mul(a: i64, f: i64) -> (r: i64)
    requires
        i64::MIN < a * f <= i64::MAX,
    ensures
        r == spec_scale_mul(a as int, f as int),
{
    let p: i64 = a * f;
    if p >= 0 {
        let q: u64 = (p as u64) / (SCALE as u64);
        proof {
            lemma_div_is_ordered(p as int, i64::MAX as int, SCALE as int);
            assert((p as int) / (SCALE as int) >= 0) by (nonlinear_arith)
                requires p >= 0;
        }
        q as i64
    } else {
        let m: i64 = -p;
        let q: u64 = (m as u64) / (SCALE as u64);
        proof {
            lemma_div_is_ordered(m as int, i64::MAX as int, SCALE as int);
            assert((m as int) / (SCALE as int) >= 0) by (nonlinear_arith)
                requires m >= 0;
        }
        -(q as i64)
    }
}

} // verus!
