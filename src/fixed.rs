//! Saturating fixed-point arithmetic: a value `v` stands for `v / SCALE`,
//! and every result is clamped to `[-MAX_VALUE, MAX_VALUE]`.
use vstd::prelude::*;

verus! {

/// Number of units in `1.0`.
pub const SCALE: i64 = 1_000_000;

/// Largest magnitude a value may take (one thousand, in units of `SCALE`).
pub const MAX_VALUE: i64 = 1_000_000_000;

pub open spec fn in_range(x: int) -> bool {
    -MAX_VALUE <= x && x <= MAX_VALUE
}

/// Clamps a mathematical integer to the representable range.
pub open spec fn sat(x: int) -> int {
    if x > MAX_VALUE {
        MAX_VALUE as int
    } else if x < -MAX_VALUE {
        -MAX_VALUE as int
    } else {
        x
    }
}

/// Division rounding toward zero, for a positive divisor.
pub open spec fn trunc_div(p: int, d: int) -> int {
    if p >= 0 {
        p / d
    } else {
        -((-p) / d)
    }
}

/// Fixed-point product.
pub open spec fn mul_spec(a: int, b: int) -> int {
    sat(trunc_div(a * b, SCALE as int))
}

/// Fixed-point sum.
pub open spec fn add_spec(a: int, b: int) -> int {
    sat(a + b)
}

pub open spec fn abs_spec(a: int) -> int {
    if a < 0 {
        -a
    } else {
        a
    }
}

/// Clamps `x` to the representable range.
pub fn saturate(x: i64) -> (r: i64)
    ensures
        r == sat(x as int),
{
    if x > MAX_VALUE {
        MAX_VALUE
    } else if x < -MAX_VALUE {
        -MAX_VALUE
    } else {
        x
    }
}

/// Saturating fixed-point sum.
pub fn fx_add(a: i64, b: i64) -> (r: i64)
    requires
        in_range(a as int),
        in_range(b as int),
    ensures
        r == add_spec(a as int, b as int),
        in_range(r as int),
{
    saturate(a + b)
}

/// Saturating fixed-point difference.
pub fn fx_sub(a: i64, b: i64) -> (r: i64)
    requires
        in_range(a as int),
        in_range(b as int),
    ensures
        r == sat(a - b),
        in_range(r as int),
{
    saturate(a - b)
}

/// Saturating fixed-point product, rounded toward zero.
pub fn fx_mul(a: i64, b: i64) -> (r: i64)
    requires
        in_range(a as int),
        in_range(b as int),
    ensures
        r == mul_spec(a as int, b as int),
        in_range(r as int),
{
    proof {
        assert(-1_000_000_000_000_000_000 <= a * b <= 1_000_000_000_000_000_000) by (nonlinear_arith)
            requires
                -1_000_000_000 <= a <= 1_000_000_000,
                -1_000_000_000 <= b <= 1_000_000_000,
        ;
    }
    let p: i64 = a * b;
    let q: i64 = if p >= 0 {
        p / SCALE
    } else {
        -((-p) / SCALE)
    };
    saturate(q)
}

/// Absolute value.
pub fn fx_abs(a: i64) -> (r: i64)
    requires
        in_range(a as int),
    ensures
        r == abs_spec(a as int),
        in_range(r as int),
{
    if a < 0 {
        -a
    } else {
        a
    }
}

} // verus!
