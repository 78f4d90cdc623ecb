//! Fixed-point scalars.
//!
//! Every position, length and speed of the simulation is a whole number of
//! thousandths of a pixel, held in an `i64`. Arithmetic on these scalars never
//! fails: a result that leaves the range of `i64` stays at the end of the range
//! that it crossed, and a division rounds toward zero.

use vstd::prelude::*;

verus! {

/// Number of scalar units that make one pixel.
pub const UNIT: i64 = 1000;

/// An exact result forced back into the range of `i64`.
pub open spec fn saturated(v: int) -> i64 {
    if v < i64::MIN {
        i64::MIN
    } else if v > i64::MAX {
        i64::MAX
    } else {
        v as i64
    }
}

/// `v` divided by a positive `d`, rounded toward zero.
pub open spec fn quotient(v: int, d: int) -> int
    recommends
        d > 0,
{
    if v >= 0 {
        v / d
    } else {
        -((-v) / d)
    }
}

/// `v` forced into the range from `low` to `high`.
pub open spec fn clamped(v: int, low: int, high: int) -> int
    recommends
        low <= high,
{
    if v < low {
        low
    } else if v > high {
        high
    } else {
        v
    }
}

/// The whole number halfway between `a` and `b`, rounded down.
pub open spec fn midpoint(a: int, b: int) -> int {
    (a + b) / 2
}

/// Brings a wide intermediate result back into `i64`.
pub fn narrowed(v: i128) -> (r: i64)
    ensures
        r == saturated(v as int),
{
    if v < i64::MIN as i128 {
        i64::MIN
    } else if v > i64::MAX as i128 {
        i64::MAX
    } else {
        v as i64
    }
}

/// Saturating sum.
pub fn plus(a: i64, b: i64) -> (r: i64)
    ensures
        r == saturated(a + b),
{
    narrowed(a as i128 + b as i128)
}

/// Saturating difference.
pub fn minus(a: i64, b: i64) -> (r: i64)
    ensures
        r == saturated(a - b),
{
    narrowed(a as i128 - b as i128)
}

/// Saturating change of sign: only `i64::MIN` has no exact opposite, and
/// becomes `i64::MAX`.
pub fn negated(a: i64) -> (r: i64)
    ensures
        r == saturated(-a),
{
    if a == i64::MIN {
        i64::MAX
    } else {
        -a
    }
}

/// The exact product of two scalars, which always fits in an `i128`.
pub fn product(a: i64, b: i64) -> (r: i128)
    ensures
        r == a * b,
        -0x4000_0000_0000_0000_0000_0000_0000_0000 < r <= 0x4000_0000_0000_0000_0000_0000_0000_0000,
{
    let x: i128 = a as i128;
    let y: i128 = b as i128;
    assert(-0x4000_0000_0000_0000_0000_0000_0000_0000 < x * y
        <= 0x4000_0000_0000_0000_0000_0000_0000_0000) by (nonlinear_arith)
        requires
            -0x8000_0000_0000_0000 <= x <= 0x7fff_ffff_ffff_ffff,
            -0x8000_0000_0000_0000 <= y <= 0x7fff_ffff_ffff_ffff,
    ;
    x * y
}

/// Saturating product.
pub fn times(a: i64, b: i64) -> (r: i64)
    ensures
        r == saturated(a * b),
{
    narrowed(product(a, b))
}

/// Half of `v`, rounded toward zero.
pub fn half(v: i64) -> (r: i64)
    ensures
        r == quotient(v as int, 2),
{
    v / 2
}

/// The number of whole pixels in `v`, rounded toward zero.
pub fn whole_pixels(v: i64) -> (r: i64)
    ensures
        r == quotient(v as int, UNIT as int),
{
    v / UNIT
}

/// The scalar halfway between `a` and `b`.
pub fn middle(a: i64, b: i64) -> (r: i64)
    ensures
        r == midpoint(a as int, b as int),
{
    let sum: i128 = a as i128 + b as i128;
    let mid: i128 = if sum >= 0 {
        sum / 2
    } else {
        -((1 - sum) / 2)
    };
    mid as i64
}

} // verus!
