//! Division of signed numbers with a stated rounding.

use vstd::prelude::*;
use vstd::arithmetic::div_mod::{lemma_fundamental_div_mod, lemma_fundamental_div_mod_converse};

verus! {

/// The largest magnitude that `div_floor` and `div_ceil` take.
pub const DIV_LIMIT: i128 = 0x4000_0000_0000_0000_0000_0000_0000_0000;

/// `x / d` rounded towards negative infinity.
pub open spec fn floor_div(x: int, d: int) -> int
    recommends
        d > 0,
{
    x / d
}

/// `x / d` rounded towards positive infinity.
pub open spec fn ceil_div(x: int, d: int) -> int
    recommends
        d > 0,
{
    -((-x) / d)
}

/// Rounding down is monotone in the dividend.
pub proof fn lemma_floor_div_monotone(x: int, y: int, d: int)
    requires
        d > 0,
        x <= y,
    ensures
        floor_div(x, d) <= floor_div(y, d),
{
    vstd::arithmetic::div_mod::lemma_div_is_ordered(x, y, d);
}

/// The quotient rounded down is the largest whole number not above the exact
/// quotient; the one rounded up is the smallest not below it.
pub proof fn lemma_div_bounds(x: int, d: int)
    requires
        d > 0,
    ensures
        floor_div(x, d) * d <= x < (floor_div(x, d) + 1) * d,
        (ceil_div(x, d) - 1) * d < x <= ceil_div(x, d) * d,
{
    lemma_fundamental_div_mod(x, d);
    lemma_fundamental_div_mod(-x, d);
    let q: int = x / d;
    let p: int = (-x) / d;
    assert(d * q == q * d) by (nonlinear_arith);
    assert((q + 1) * d == q * d + d) by (nonlinear_arith);
    assert(d * p == p * d) by (nonlinear_arith);
    assert((-p) * d == -(p * d)) by (nonlinear_arith);
    assert((-p - 1) * d == -(p * d) - d) by (nonlinear_arith);
}

/// `x / d` rounded towards negative infinity.
pub fn div_floor(x: i128, d: i128) -> (q: i128)
    requires
        d > 0,
        -DIV_LIMIT < x < DIV_LIMIT,
        d < DIV_LIMIT,
    ensures
        q == floor_div(x as int, d as int),
{
    if x >= 0 {
        x / d
    } else {
        let m: i128 = -x;
        let up: i128 = (m + (d - 1)) / d;
        proof {
            let big: int = m + d - 1;
            lemma_fundamental_div_mod(big, d as int);
            let r: int = big % (d as int);
            assert(0 <= r < d);
            assert((d as int) * (up as int) == (up as int) * (d as int)) by (nonlinear_arith);
            assert((-(up as int)) * (d as int) == -((up as int) * (d as int))) by (nonlinear_arith);
            lemma_fundamental_div_mod_converse(x as int, d as int, -(up as int), d - 1 - r);
        }
        -up
    }
}

/// `x / d` rounded towards positive infinity.
pub fn div_ceil(x: i128, d: i128) -> (q: i128)
    requires
        d > 0,
        -DIV_LIMIT < x < DIV_LIMIT,
        d < DIV_LIMIT,
    ensures
        q == ceil_div(x as int, d as int),
{
    let down: i128 = div_floor(-x, d);
    proof {
        lemma_div_bounds(-(x as int), d as int);
        assert(-DIV_LIMIT <= down <= DIV_LIMIT) by (nonlinear_arith)
            requires
                (down as int) * (d as int) <= -(x as int),
                -(x as int) < ((down as int) + 1) * (d as int),
                d > 0,
                -DIV_LIMIT < x < DIV_LIMIT,
        ;
    }
    -down
}

} // verus!
