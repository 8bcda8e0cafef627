//! Fixed-point arithmetic for the paw pipeline.
//!
//! Lengths, positions and scale factors are integers in thousandths of a
//! world unit (`MILLI` is one unit); the openness factor runs in millionths
//! (`MICRO` is 1.0).  Every fractional multiply rounds toward zero, the one
//! rounding rule used throughout the crate; `tdiv` is its mathematical
//! definition and `mul_div` / `mul3_div` are the executable forms.

use vstd::prelude::*;

verus! {

use vstd::arithmetic::div_mod::{
    lemma_div_pos_is_pos, lemma_div_nonincreasing, lemma_div_is_ordered,
    lemma_multiply_divide_lt, lemma_div_by_multiple,
};

/// One whole unit, in the milli scale used for lengths and scale factors.
pub const MILLI: i64 = 1_000;

/// One whole unit, in the micro scale used for the openness factor and for
/// rotation angles (micro-radians).
pub const MICRO: i64 = 1_000_000;

/// Division rounding toward zero, as the executable code performs it.
/// Meaningful for `d > 0`.
pub open spec fn tdiv(n: int, d: int) -> int {
    if n >= 0 {
        n / d
    } else {
        -((-n) / d)
    }
}

/// Rounding toward zero sends zero to zero.
pub proof fn lemma_tdiv_zero(d: int)
    requires
        0 < d,
    ensures
        tdiv(0, d) == 0,
{
    lemma_div_by_multiple(0, d);
}

/// Rounding toward zero is antisymmetric: negating the dividend negates the
/// quotient exactly.  (This is the fact behind the mirror-symmetric finger
/// rotations.)
pub proof fn lemma_tdiv_neg(n: int, d: int)
    requires
        0 < d,
    ensures
        tdiv(-n, d) == -tdiv(n, d),
{
    if n == 0 {
        lemma_tdiv_zero(d);
    }
}

/// A nonnegative dividend gives a nonnegative quotient no larger than the
/// dividend (for divisors of at least one).
pub proof fn lemma_tdiv_pos_bounds(n: int, d: int)
    requires
        0 <= n,
        0 < d,
    ensures
        0 <= tdiv(n, d) <= n,
{
    lemma_div_pos_is_pos(n, d);
    lemma_div_nonincreasing(n, d);
}

/// Ordering of dividends carries over to truncated quotients, on the
/// nonnegative side.
pub proof fn lemma_tdiv_ordered(a: int, b: int, d: int)
    requires
        0 <= a <= b,
        0 < d,
    ensures
        tdiv(a, d) <= tdiv(b, d),
{
    lemma_div_is_ordered(a, b, d);
}

/// Strict contraction: scaling a positive `n` by `k/d` with `k < d` lands
/// strictly below `n`.  (This is why the openness factor never crosses its
/// target.)
pub proof fn lemma_tdiv_scale_contracts(n: int, k: int, d: int)
    requires
        0 < n,
        0 <= k < d,
    ensures
        0 <= tdiv(n * k, d) < n,
{
    assert(n * k >= 0) by (nonlinear_arith)
        requires n > 0 && k >= 0;
    lemma_tdiv_pos_bounds(n * k, d);
    assert(n * k < d * n) by (nonlinear_arith)
        requires n > 0 && k < d;
    lemma_multiply_divide_lt(n * k, d, n);
}

/// `(a * b) / d`, rounded toward zero.
///
/// The product bound in the precondition keeps the intermediate product,
/// and hence the result, well inside `i64`.
pub fn mul_div(a: i64, b: i64, d: i64) -> (r: i64)
    requires
        0 < d,
        -0x4000_0000_0000_0000 <= a * b <= 0x4000_0000_0000_0000,
    ensures
        r == tdiv(a * b, d as int),
        a * b >= 0 ==> 0 <= r <= a * b,
        a * b <= 0 ==> a * b <= r <= 0,
{
    let p: i64 = a * b;
    if p >= 0 {
        let q: u64 = (p as u64) / (d as u64);
        proof {
            lemma_tdiv_pos_bounds(p as int, d as int);
        }
        q as i64
    } else {
        let m: u64 = ((-p) as u64) / (d as u64);
        proof {
            lemma_tdiv_pos_bounds(-(p as int), d as int);
        }
        -(m as i64)
    }
}

/// `(a * b * c) / d`, rounded toward zero, for the triple products of the
/// finger pose formulas (rest coordinate x coefficient x blend amount).
pub fn mul3_div(a: i64, b: i64, c: i64, d: i64) -> (r: i64)
    requires
        0 < d,
        -0x4000_0000_0000_0000 <= a * b <= 0x4000_0000_0000_0000,
        -0x4000_0000_0000_0000 <= a * b * c <= 0x4000_0000_0000_0000,
    ensures
        r == tdiv(a * b * c, d as int),
        a * b * c >= 0 ==> 0 <= r <= a * b * c,
        a * b * c <= 0 ==> a * b * c <= r <= 0,
{
    let p: i64 = a * b;
    mul_div(p, c, d)
}

/// The integer square root: the greatest `r` with `r * r <= n`.
///
/// Binary search over `r`; the upper end starts at the root of `u64::MAX`,
/// so the squares computed along the way cannot overflow.
pub fn isqrt(n: u64) -> (r: u64)
    ensures
        r * r <= n,
        n < (r + 1) * (r + 1),
{
    let mut lo: u64 = 0;
    let mut hi: u64 = 4_294_967_295;
    proof {
        assert((hi + 1) * (hi + 1) > n) by (nonlinear_arith)
            requires hi == 4_294_967_295u64 && n <= u64::MAX;
    }
    while lo < hi
        invariant
            lo <= hi <= 4_294_967_295,
            lo * lo <= n,
            n < (hi + 1) * (hi + 1),
        decreases hi - lo,
    {
        let mid: u64 = lo + (hi - lo + 1) / 2;
        proof {
            assert(lo < mid <= hi);
            assert(mid * mid <= u64::MAX) by (nonlinear_arith)
                requires mid <= 4_294_967_295u64;
        }
        if mid * mid <= n {
            lo = mid;
        } else {
            hi = mid - 1;
        }
    }
    lo
}

} // verus!
