//! Fixed-point fractions. A fraction is an integer number of billionths, so
//! that `UNIT` stands for one.

use vstd::arithmetic::div_mod::{
    lemma_fundamental_div_mod, lemma_fundamental_div_mod_converse, lemma_mod_pos_bound,
};
use vstd::prelude::*;

verus! {

/// The fixed-point representation of one.
pub const UNIT: i64 = 1_000_000_000;

/// The largest denominator `unit_fraction_of` accepts: with it the scaled
/// numerator still fits in 128 bits.
pub const MAX_DENOMINATOR: i128 = 170_141_183_460_469_231_731_687_303_715;

/// `x` limited to the closed interval from zero to one.
pub open spec fn clamp_unit(x: int) -> int {
    if x < 0 {
        0
    } else if x > UNIT {
        UNIT as int
    } else {
        x
    }
}

/// The quotient `num / den` limited to the interval from zero to one, rounded
/// down to a billionth. A denominator that is not positive gives zero.
pub open spec fn unit_fraction(num: int, den: int) -> int {
    if den <= 0 || num <= 0 {
        0
    } else if num >= den {
        UNIT as int
    } else {
        (UNIT * num) / den
    }
}

/// Computes `unit_fraction`.
pub fn unit_fraction_of(num: i128, den: i128) -> (r: i64)
    requires
        den <= MAX_DENOMINATOR,
    ensures
        r == unit_fraction(num as int, den as int),
        0 <= r <= UNIT,
{
    if den <= 0 || num <= 0 {
        0
    } else if num >= den {
        UNIT
    } else {
        let scaled: i128 = (UNIT as i128) * num;
        let q: i128 = scaled / den;
        assert(q <= UNIT) by (nonlinear_arith)
            requires
                q == (UNIT * num) / (den as int),
                0 < num < den,
        ;
        assert(0 <= q) by (nonlinear_arith)
            requires
                q == (UNIT * num) / (den as int),
                0 < num < den,
        ;
        q as i64
    }
}

/// The quotient of `a` by a positive `b`, rounded down.
pub fn floor_div(a: i128, b: i128) -> (q: i128)
    requires
        b > 0,
    ensures
        q == (a as int) / (b as int),
{
    if a >= 0 {
        a / b
    } else {
        let m: i128 = -(a + 1);
        let below: i128 = m / b;
        proof {
            let r = (m as int) % (b as int);
            lemma_fundamental_div_mod(m as int, b as int);
            lemma_mod_pos_bound(m as int, b as int);
            assert(0 <= below <= m) by (nonlinear_arith)
                requires
                    m == b * below + r,
                    0 <= r < b,
                    0 <= m,
            ;
            assert(a == (-below - 1) * b + (b - r - 1)) by (nonlinear_arith)
                requires
                    m == b * below + r,
                    a == -m - 1,
            ;
            lemma_fundamental_div_mod_converse(a as int, b as int, -below - 1, b - r - 1);
        }
        -below - 1
    }
}

} // verus!
