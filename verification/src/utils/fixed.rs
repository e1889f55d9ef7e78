//! Fixed-point scalars.
//!
//! A scalar such as a zoom level, a sensitivity or an orb is stored as an
//! integer number of millionths, the same unit in which angles count degrees.

use vstd::prelude::*;

verus! {

/// The fixed-point representation of one whole unit (1.0, or one degree).
pub const MICRO: i64 = 1_000_000;

/// Quotient of `x` by a positive `d`, rounded toward zero.
pub open spec fn trunc_div(x: int, d: int) -> int {
    if x >= 0 {
        x / d
    } else {
        -((-x) / d)
    }
}

/// Remainder of `x` by a positive `d` with the sign of `x`.
pub open spec fn trunc_rem(x: int, d: int) -> int {
    if x >= 0 {
        x % d
    } else {
        -((-x) % d)
    }
}

/// Product of a value and a fixed-point factor, rounded toward zero.
pub open spec fn scaled(value: int, factor: int) -> int {
    trunc_div(value * factor, 1_000_000)
}

/// `x` limited to the closed range `[lo, hi]`; the lower bound is applied first.
pub open spec fn clamped(x: int, lo: int, hi: int) -> int {
    if x < lo {
        if lo > hi { hi } else { lo }
    } else if x > hi {
        hi
    } else {
        x
    }
}

/// The product of two 64-bit values fits in 128 bits with room to spare.
pub proof fn lemma_product_bounds(a: i64, b: i64)
    ensures
        -0x4000_0000_0000_0000_0000_0000_0000_0000 <= a * b
            <= 0x4000_0000_0000_0000_0000_0000_0000_0000,
{
    assert(-0x4000_0000_0000_0000_0000_0000_0000_0000 <= a * b
        <= 0x4000_0000_0000_0000_0000_0000_0000_0000) by (nonlinear_arith)
        requires
            -0x8000_0000_0000_0000 <= a <= 0x7fff_ffff_ffff_ffff,
            -0x8000_0000_0000_0000 <= b <= 0x7fff_ffff_ffff_ffff,
    ;
}

/// The remainder that the machine gives for a division by a positive number
/// keeps the sign of the dividend; raised by the divisor where it is
/// negative, it is the remainder that lies between zero and the divisor.
pub proof fn lemma_remainder(x: int, d: int)
    requires
        d > 0,
    ensures
        x >= 0 ==> x % d == trunc_rem(x, d),
        x < 0 && trunc_rem(x, d) == 0 ==> x % d == 0,
        x < 0 && trunc_rem(x, d) != 0 ==> x % d == trunc_rem(x, d) + d,
        0 <= x % d < d,
{
    if x < 0 {
        let q = (-x) / d;
        let rest = (-x) % d;
        vstd::arithmetic::div_mod::lemma_fundamental_div_mod(-x, d);
        assert(d * q == q * d) by (nonlinear_arith);
        if rest == 0 {
            assert((-q) * d == -(q * d)) by (nonlinear_arith);
            vstd::arithmetic::div_mod::lemma_fundamental_div_mod_converse(x, d, -q, 0);
        } else {
            assert((-q - 1) * d == -(q * d) - d) by (nonlinear_arith);
            vstd::arithmetic::div_mod::lemma_fundamental_div_mod_converse(x, d, -q - 1, d - rest);
        }
    } else {
        vstd::arithmetic::div_mod::lemma_mod_bound(x, d);
    }
}

/// Multiplies `value` by the fixed-point `factor`.
pub fn scale(value: i64, factor: i64) -> (r: i128)
    ensures
        r == scaled(value as int, factor as int),
{
    proof {
        lemma_product_bounds(value, factor);
    }
    let wide: i128 = (value as i128) * (factor as i128);
    wide / 1_000_000
}

/// Limits `x` to `[lo, hi]`, lower bound first.
pub fn clamp(x: i128, lo: i64, hi: i64) -> (r: i64)
    ensures
        r == clamped(x as int, lo as int, hi as int),
{
    if x < lo as i128 {
        if lo > hi { hi } else { lo }
    } else if x > hi as i128 {
        hi
    } else {
        x as i64
    }
}

} // verus!
