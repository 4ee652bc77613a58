//! Exact comparison of products of 128-bit integers.
//!
//! A product of two 128-bit integers needs up to 256 bits. The functions here
//! compute such products in two 128-bit halves, so that two products can be
//! compared without rounding and without overflow.

use vstd::prelude::*;

verus! {

/// Two to the power 64: the weight of the upper half of a 128-bit integer.
pub const LIMB: u128 = 0x1_0000_0000_0000_0000;

/// The absolute value of `x`.
pub open spec fn magnitude(x: int) -> int {
    if x < 0 {
        -x
    } else {
        x
    }
}

/// The integer that the two halves `hi` and `lo` stand for: `hi` counts
/// multiples of two to the power 128.
pub open spec fn joined(hi: u128, lo: u128) -> int {
    hi * 0x1_0000_0000_0000_0000_0000_0000_0000_0000int + lo
}

/// A product of two half-width factors fits in 128 bits, and its upper half
/// leaves room for two carries.
proof fn lemma_limb_product(x: u128, y: u128)
    requires
        x < LIMB,
        y < LIMB,
    ensures
        x * y <= (LIMB - 1) * (LIMB - 1),
        x * y <= u128::MAX,
        (x * y) / (LIMB as int) <= LIMB - 2,
{
    assert(x * y <= (LIMB - 1) * (LIMB - 1)) by (nonlinear_arith)
        requires
            0 <= x <= LIMB - 1,
            0 <= y <= LIMB - 1,
    ;
}

/// The product of two numbers written in halves, by distribution.
proof fn lemma_split_product(a: int, b: int, a1: int, a0: int, b1: int, b0: int, w: int)
    requires
        a == a1 * w + a0,
        b == b1 * w + b0,
    ensures
        a * b == (a1 * b1) * (w * w) + (a0 * b1) * w + (a1 * b0) * w + a0 * b0,
{
    let x = a1 * w;
    let y = b1 * w;
    assert((x + a0) * (y + b0) == x * y + x * b0 + a0 * y + a0 * b0) by (nonlinear_arith);
    assert(x * y == (a1 * b1) * (w * w)) by (nonlinear_arith)
        requires
            x == a1 * w,
            y == b1 * w,
    ;
    assert(x * b0 == (a1 * b0) * w) by (nonlinear_arith)
        requires
            x == a1 * w,
    ;
    assert(a0 * y == (a0 * b1) * w) by (nonlinear_arith)
        requires
            y == b1 * w,
    ;
}

/// The absolute value of a product is the product of the absolute values.
proof fn lemma_magnitude_of_product(a: int, b: int)
    ensures
        magnitude(a * b) == magnitude(a) * magnitude(b),
        (a * b < 0) == ((a < 0) != (b < 0) && a != 0 && b != 0),
{
    assert(magnitude(a * b) == magnitude(a) * magnitude(b) && (a * b < 0) == ((a < 0) != (b < 0)
        && a != 0 && b != 0)) by (nonlinear_arith);
}

/// The absolute value of `x` as an unsigned integer.
pub fn magnitude_of(x: i128) -> (m: u128)
    ensures
        m == magnitude(x as int),
{
    if x >= 0 {
        x as u128
    } else {
        let below: i128 = -(x + 1);
        (below as u128) + 1
    }
}

/// The full product of `a` and `b`, as an upper and a lower half.
pub fn full_product(a: u128, b: u128) -> (r: (u128, u128))
    ensures
        joined(r.0, r.1) == a * b,
{
    let a1: u128 = a / LIMB;
    let a0: u128 = a % LIMB;
    let b1: u128 = b / LIMB;
    let b0: u128 = b % LIMB;
    proof {
        lemma_limb_product(a0, b0);
        lemma_limb_product(a0, b1);
        lemma_limb_product(a1, b0);
        lemma_limb_product(a1, b1);
    }
    let low: u128 = a0 * b0;
    let cross_a: u128 = a0 * b1;
    let cross_b: u128 = a1 * b0;
    let high: u128 = a1 * b1;
    let middle: u128 = low / LIMB + cross_a % LIMB + cross_b % LIMB;
    let lo: u128 = (middle % LIMB) * LIMB + low % LIMB;
    let hi: u128 = high + cross_a / LIMB + cross_b / LIMB + middle / LIMB;
    proof {
        lemma_split_product(
            a as int,
            b as int,
            a1 as int,
            a0 as int,
            b1 as int,
            b0 as int,
            LIMB as int,
        );
        assert(LIMB * LIMB == 0x1_0000_0000_0000_0000_0000_0000_0000_0000int) by (nonlinear_arith)
            requires
                LIMB == 0x1_0000_0000_0000_0000int,
        ;
    }
    (hi, lo)
}

/// Whether `a * b <= c * d`, computed exactly.
pub fn product_le(a: i128, b: i128, c: i128, d: i128) -> (r: bool)
    ensures
        r == (a * b <= c * d),
{
    let left = full_product(magnitude_of(a), magnitude_of(b));
    let right = full_product(magnitude_of(c), magnitude_of(d));
    let left_negative = ((a < 0) != (b < 0)) && a != 0 && b != 0;
    let right_negative = ((c < 0) != (d < 0)) && c != 0 && d != 0;
    proof {
        lemma_magnitude_of_product(a as int, b as int);
        lemma_magnitude_of_product(c as int, d as int);
    }
    if left_negative {
        if right_negative {
            left.0 > right.0 || (left.0 == right.0 && left.1 >= right.1)
        } else {
            true
        }
    } else {
        if right_negative {
            false
        } else {
            left.0 < right.0 || (left.0 == right.0 && left.1 <= right.1)
        }
    }
}

/// Whether `a * b > c * d`, computed exactly.
pub fn product_gt(a: i128, b: i128, c: i128, d: i128) -> (r: bool)
    ensures
        r == (a * b > c * d),
{
    !product_le(a, b, c, d)
}

} // verus!
