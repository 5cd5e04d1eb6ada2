//! Integer helpers shared by the physics: truncating division (the fixed-point
//! analogue of multiplying by a fractional constant), clamping, and an exact
//! integer square root.

use vstd::prelude::*;

verus! {

/// Rust-style truncating division (round toward zero) of `a` by a positive
/// divisor `d`, as a mathematical function.
pub open spec fn div_trunc(a: int, d: int) -> int {
    if a >= 0 {
        a / d
    } else {
        -((-a) / d)
    }
}

/// `z` clamped into `[-b, b]`.
pub open spec fn clamp_i(z: int, b: int) -> int {
    if z < -b {
        -b
    } else if z > b {
        b
    } else {
        z
    }
}

/// `|div_trunc(a, d)| <= |a|` for a positive divisor.
pub proof fn lemma_div_trunc_le(a: int, d: int)
    requires
        d >= 1,
    ensures
        a >= 0 ==> 0 <= div_trunc(a, d) <= a,
        a < 0 ==> a <= div_trunc(a, d) <= 0,
{
    if a >= 0 {
        assert(0 <= a / d <= a) by (nonlinear_arith)
            requires
                a >= 0,
                d >= 1,
        ;
    } else {
        assert(0 <= (-a) / d <= -a) by (nonlinear_arith)
            requires
                a < 0,
                d >= 1,
        ;
    }
}

/// Truncating division of an `i64` by a positive divisor.
pub fn div_trunc_i64(a: i64, d: i64) -> (r: i64)
    requires
        d >= 1,
        a > i64::MIN,
    ensures
        r == div_trunc(a as int, d as int),
{
    proof {
        lemma_div_trunc_le(a as int, d as int);
    }
    if a >= 0 {
        ((a as u64) / (d as u64)) as i64
    } else {
        -((((-a) as u64) / (d as u64)) as i64)
    }
}

/// Truncating division of an `i128` by a positive divisor.
pub fn div_trunc_i128(a: i128, d: i128) -> (r: i128)
    requires
        d >= 1,
        a > i128::MIN,
    ensures
        r == div_trunc(a as int, d as int),
{
    proof {
        lemma_div_trunc_le(a as int, d as int);
    }
    if a >= 0 {
        ((a as u128) / (d as u128)) as i128
    } else {
        -((((-a) as u128) / (d as u128)) as i128)
    }
}

/// Clamp an `i128` into `[-b, b]` and narrow it to `i64`.
pub fn clamp_i128_to_i64(z: i128, b: i64) -> (r: i64)
    requires
        0 <= b,
    ensures
        r == clamp_i(z as int, b as int),
{
    if z < -(b as i128) {
        -b
    } else if z > b as i128 {
        b
    } else {
        z as i64
    }
}

} // verus!
