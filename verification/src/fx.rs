//! Fixed-point scalar arithmetic.
//!
//! Every quantity of the simulation — positions, scale factors, speeds,
//! elapsed time — is an `i64` counted in milli-units: `FX_ONE` stands for one
//! whole world unit (or one second). Products and quotients truncate toward
//! zero, and the integer square root is exact by construction, so every
//! formula of the game is a total function on integers.

use vstd::prelude::*;
use vstd::arithmetic::div_mod::lemma_div_is_ordered;

verus! {

/// One whole unit in fixed-point milli-units.
pub const FX_ONE: i64 = 1000;

/// Magnitude of a mathematical integer.
pub open spec fn abs_of(a: int) -> int {
    if a >= 0 {
        a
    } else {
        -a
    }
}

/// Truncating (round-toward-zero) fixed-point product: `a * b / FX_ONE`.
pub open spec fn fx_mul_s(a: int, b: int) -> int {
    if (a >= 0) == (b >= 0) {
        abs_of(a) * abs_of(b) / (FX_ONE as int)
    } else {
        -(abs_of(a) * abs_of(b) / (FX_ONE as int))
    }
}

/// Plain integer division of `a` by a positive `b`, rounded toward zero.
pub open spec fn div_trunc(a: int, b: int) -> int
    recommends
        b > 0,
{
    if a >= 0 {
        a / b
    } else {
        -((-a) / b)
    }
}

/// Truncating fixed-point quotient: `a * FX_ONE / b` for a positive `b`.
pub open spec fn fx_div_s(a: int, b: int) -> int
    recommends
        b > 0,
{
    div_trunc(a * (FX_ONE as int), b)
}

/// `v` forced into the closed interval `[lo, hi]`.
pub open spec fn clamp_s(v: int, lo: int, hi: int) -> int {
    if v < lo {
        lo
    } else if v > hi {
        hi
    } else {
        v
    }
}

/// `r` is the floor of the real square root of `x`.
pub open spec fn is_isqrt(x: int, r: int) -> bool {
    0 <= r && r * r <= x && x < (r + 1) * (r + 1)
}

/// The integer square root as a function, defined by its characteristic
/// property; `lemma_isqrt_is_sqrt_floor` ties any witness to it.
pub open spec fn sqrt_floor(x: int) -> int {
    choose|r: int| is_isqrt(x, r)
}

/// Two integers satisfying the square-root property for the same `x` are
/// equal.
pub proof fn lemma_isqrt_unique(x: int, r1: int, r2: int)
    by (nonlinear_arith)
    requires
        0 <= r1,
        r1 * r1 <= x,
        x < (r1 + 1) * (r1 + 1),
        0 <= r2,
        r2 * r2 <= x,
        x < (r2 + 1) * (r2 + 1),
    ensures
        r1 == r2,
{
}

/// A witness of the square-root property is `sqrt_floor` itself.
pub proof fn lemma_isqrt_is_sqrt_floor(x: int, r: int)
    requires
        is_isqrt(x, r),
    ensures
        sqrt_floor(x) == r,
{
    assert(exists|q: int| is_isqrt(x, q));
    assert(is_isqrt(x, sqrt_floor(x)));
    lemma_isqrt_unique(x, sqrt_floor(x), r);
}

/// Each coordinate of a vector is bounded by the root of the squared length.
pub proof fn lemma_isqrt_dominates_coord(c: int, other_sq: int, r: int)
    by (nonlinear_arith)
    requires
        0 <= other_sq,
        is_isqrt(c * c + other_sq, r),
    ensures
        abs_of(c) <= r,
{
}

/// Bounding the operands of `fx_mul_s` bounds its magnitude.
pub proof fn lemma_fx_mul_s_bound(a: int, b: int, ba: int, bb: int)
    requires
        abs_of(a) <= ba,
        abs_of(b) <= bb,
        0 <= ba,
        0 <= bb,
    ensures
        abs_of(a) * abs_of(b) <= ba * bb,
        abs_of(a) * abs_of(b) / (FX_ONE as int) <= ba * bb / (FX_ONE as int),
        abs_of(fx_mul_s(a, b)) <= ba * bb / (FX_ONE as int),
{
    assert(abs_of(a) * abs_of(b) <= ba * bb) by (nonlinear_arith)
        requires
            0 <= abs_of(a) <= ba,
            0 <= abs_of(b) <= bb,
    ;
    lemma_div_is_ordered(abs_of(a) * abs_of(b), ba * bb, FX_ONE as int);
    assert(abs_of(a) * abs_of(b) / (FX_ONE as int) >= 0) by (nonlinear_arith)
        requires
            abs_of(a) >= 0,
            abs_of(b) >= 0,
    ;
}

/// Magnitude of an `i64`, widened so that `i64::MIN` needs no special case
/// at the callers.
pub fn i64_abs(a: i64) -> (r: u64)
    ensures
        r as int == abs_of(a as int),
{
    if a >= 0 {
        a as u64
    } else if a == i64::MIN {
        9223372036854775808u64
    } else {
        (-a) as u64
    }
}

/// Truncating fixed-point product.
pub fn fx_mul(a: i64, b: i64) -> (r: i64)
    requires
        abs_of(a as int) * abs_of(b as int) / (FX_ONE as int) <= i64::MAX,
    ensures
        r as int == fx_mul_s(a as int, b as int),
{
    let ua: u64 = i64_abs(a);
    let ub: u64 = i64_abs(b);
    assert((ua as int) * (ub as int) <= u128::MAX) by (nonlinear_arith)
        requires
            ua <= u64::MAX,
            ub <= u64::MAX,
    ;
    let p: u128 = (ua as u128) * (ub as u128) / 1000;
    assert(p as int == abs_of(a as int) * abs_of(b as int) / (FX_ONE as int));
    let m: i64 = p as i64;
    if (a < 0) != (b < 0) {
        -m
    } else {
        m
    }
}

/// Truncating fixed-point quotient by a positive divisor.
pub fn fx_div(a: i64, b: i64) -> (r: i64)
    requires
        b > 0,
        abs_of(a as int) * (FX_ONE as int) / (b as int) <= i64::MAX,
    ensures
        r as int == fx_div_s(a as int, b as int),
{
    let ua: u64 = i64_abs(a);
    assert((ua as int) * 1000 <= u128::MAX) by (nonlinear_arith)
        requires
            ua <= u64::MAX,
    ;
    let q: u128 = (ua as u128) * 1000 / (b as u128);
    assert(q as int == abs_of(a as int) * (FX_ONE as int) / (b as int));
    let m: i64 = q as i64;
    if a < 0 {
        -m
    } else {
        m
    }
}

/// `v` forced into the closed interval `[lo, hi]`.
pub fn clamp_i64(v: i64, lo: i64, hi: i64) -> (r: i64)
    requires
        lo <= hi,
    ensures
        r as int == clamp_s(v as int, lo as int, hi as int),
{
    if v < lo {
        lo
    } else if v > hi {
        hi
    } else {
        v
    }
}

/// Exact integer square root (floor of the real square root).
pub fn isqrt(x: u64) -> (r: u64)
    ensures
        is_isqrt(x as int, r as int),
        r as int == sqrt_floor(x as int),
{
    let mut lo: u64 = 0;
    let mut hi: u64 = 4294967296;
    while lo < hi
        invariant
            lo <= hi,
            hi <= 4294967296,
            (lo as int) * (lo as int) <= x as int,
            (x as int) < ((hi as int) + 1) * ((hi as int) + 1),
        decreases hi - lo,
    {
        let mid: u64 = lo + (hi - lo + 1) / 2;
        assert((mid as int) * (mid as int) <= u128::MAX) by (nonlinear_arith)
            requires
                mid <= 4294967296,
        ;
        let sq: u128 = (mid as u128) * (mid as u128);
        if sq <= x as u128 {
            lo = mid;
        } else {
            hi = mid - 1;
        }
    }
    proof {
        lemma_isqrt_is_sqrt_floor(x as int, lo as int);
    }
    lo
}

} // verus!
