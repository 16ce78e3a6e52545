//! Saturating fixed-point arithmetic.
//!
//! A quantity `q` is stored as the integer `q * SCALE`. Sums, differences and
//! products are computed exactly and then brought back into the range of `i64`,
//! so an operation never wraps around; products and quotients are rounded
//! towards negative infinity.

use vstd::prelude::*;

verus! {

/// The stored value of the quantity one.
pub const SCALE: i64 = 1_000_000;

/// The value of `i64` that is nearest to `x`.
pub open spec fn clamp(x: int) -> i64 {
    if x < i64::MIN {
        i64::MIN
    } else if x > i64::MAX {
        i64::MAX
    } else {
        x as i64
    }
}

/// `a + b`, brought into range.
pub open spec fn sum(a: i64, b: i64) -> i64 {
    clamp(a + b)
}

/// `a - b`, brought into range.
pub open spec fn difference(a: i64, b: i64) -> i64 {
    clamp(a - b)
}

/// `-a`, brought into range: only the least `i64` has no exact negation.
pub open spec fn negation(a: i64) -> i64 {
    clamp(-a)
}

/// The product of the quantities stored as `a` and `b`, as a stored quantity:
/// rounded down, then brought into range.
pub open spec fn product(a: i64, b: i64) -> i64 {
    clamp((a * b) / (SCALE as int))
}

/// The quotient of the quantities stored as `a` and `b`, as a stored quantity:
/// rounded down, then brought into range.
pub open spec fn quotient(a: i64, b: i64) -> i64
    recommends
        b > 0,
{
    clamp((a * SCALE) / (b as int))
}

fn narrow(x: i128) -> (r: i64)
    ensures
        r == clamp(x as int),
{
    if x < i64::MIN as i128 {
        i64::MIN
    } else if x > i64::MAX as i128 {
        i64::MAX
    } else {
        x as i64
    }
}

/// Adds two stored quantities.
pub fn sat_add(a: i64, b: i64) -> (r: i64)
    ensures
        r == sum(a, b),
{
    narrow(a as i128 + b as i128)
}

/// Subtracts `b` from `a`.
pub fn sat_sub(a: i64, b: i64) -> (r: i64)
    ensures
        r == difference(a, b),
{
    narrow(a as i128 - b as i128)
}

/// Negates a stored quantity.
pub fn sat_neg(a: i64) -> (r: i64)
    ensures
        r == negation(a),
{
    narrow(-(a as i128))
}

/// `n / d` rounded down, for a positive `d`.
fn floor_div(n: i128, d: i128) -> (q: i128)
    requires
        d > 0,
    ensures
        q == n as int / d as int,
{
    assert(n >= 0 ==> 0 <= n as int / d as int <= n) by (nonlinear_arith)
        requires
            d > 0,
    ;
    assert(n < 0 ==> n <= n as int / d as int <= 0) by (nonlinear_arith)
        requires
            d > 0,
    ;
    n.checked_div_euclid(d).unwrap()
}

/// Multiplies two stored quantities.
pub fn sat_mul(a: i64, b: i64) -> (r: i64)
    ensures
        r == product(a, b),
{
    assert(i128::MIN <= a * b <= i128::MAX) by (nonlinear_arith)
        requires
            i64::MIN <= a <= i64::MAX,
            i64::MIN <= b <= i64::MAX,
    ;
    narrow(floor_div(a as i128 * b as i128, SCALE as i128))
}

/// Divides `a` by a positive `b`.
pub fn sat_div(a: i64, b: i64) -> (r: i64)
    requires
        b > 0,
    ensures
        r == quotient(a, b),
{
    narrow(floor_div(a as i128 * SCALE as i128, b as i128))
}

} // verus!
