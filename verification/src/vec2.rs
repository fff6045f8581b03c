//! Planar vectors in fixed-point milli-units.
//!
//! Positions, velocities and scale pairs are all `Vec2Fx` values. Lengths and
//! directions come from the exact integer square root, so `length` and
//! `normalize_or_zero` are deterministic total functions with the zero-vector
//! fallback the game rules ask for.

use vstd::prelude::*;
use crate::fx::{
    abs_of, clamp_s, fx_div, fx_div_s, fx_mul, fx_mul_s, i64_abs, is_isqrt, isqrt,
    lemma_isqrt_dominates_coord, lemma_isqrt_is_sqrt_floor, sqrt_floor, FX_ONE,
};

verus! {

/// Largest coordinate magnitude the simulation admits for a position (one
/// million world units).
pub const COORD_LIMIT: i64 = 1000000000;

/// Largest coordinate magnitude whose squared length still fits the length
/// computation: the difference of two admitted positions stays below it.
pub const DIFF_LIMIT: i64 = 2000000000;

#[derive(Clone, Copy, Debug, PartialEq, Eq, Structural)]
pub struct Vec2Fx {
    pub x: i64,
    pub y: i64,
}

impl Vec2Fx {
    /// The zero vector.
    pub fn zero() -> (r: Vec2Fx)
        ensures
            r.x == 0,
            r.y == 0,
    {
        Vec2Fx { x: 0, y: 0 }
    }

    pub open spec fn is_zero(self) -> bool {
        self.x == 0 && self.y == 0
    }

    /// Both coordinates within the admitted world range.
    pub open spec fn in_world(self) -> bool {
        abs_of(self.x as int) <= COORD_LIMIT as int && abs_of(self.y as int) <= COORD_LIMIT as int
    }

    /// Both coordinates small enough for an exact length: holds of any
    /// difference of two world positions.
    pub open spec fn len_safe(self) -> bool {
        abs_of(self.x as int) <= DIFF_LIMIT as int && abs_of(self.y as int) <= DIFF_LIMIT as int
    }

    /// Both coordinates within one unit: a direction vector.
    pub open spec fn is_unit_box(self) -> bool {
        abs_of(self.x as int) <= FX_ONE as int && abs_of(self.y as int) <= FX_ONE as int
    }

    /// Squared length, exact.
    pub open spec fn len_sq_s(self) -> int {
        (self.x as int) * (self.x as int) + (self.y as int) * (self.y as int)
    }

    /// Length in milli-units: floor of the real Euclidean length.
    pub open spec fn len_s(self) -> int {
        sqrt_floor(self.len_sq_s())
    }

    /// Euclidean length, rounded down to a whole milli-unit.
    pub fn length(self) -> (r: i64)
        requires
            self.len_safe(),
        ensures
            r as int == self.len_s(),
            is_isqrt(self.len_sq_s(), r as int),
            0 <= r as int <= 3000000000,
            abs_of(self.x as int) <= r as int,
            abs_of(self.y as int) <= r as int,
            !self.is_zero() ==> r >= 1,
    {
        let ax: u64 = i64_abs(self.x);
        let ay: u64 = i64_abs(self.y);
        assert((ax as int) * (ax as int) <= 4000000000000000000 && (ay as int) * (ay as int)
            <= 4000000000000000000) by (nonlinear_arith)
            requires
                ax <= 2000000000,
                ay <= 2000000000,
        ;
        let sq: u64 = ax * ax + ay * ay;
        let r: u64 = isqrt(sq);
        assert(r < 3000000001) by (nonlinear_arith)
            requires
                (r as int) * (r as int) <= sq,
                sq <= 8000000000000000000,
        ;
        proof {
            assert(sq as int == self.len_sq_s()) by (nonlinear_arith)
                requires
                    ax as int == abs_of(self.x as int),
                    ay as int == abs_of(self.y as int),
                    sq as int == (ax as int) * (ax as int) + (ay as int) * (ay as int),
            ;
            lemma_isqrt_is_sqrt_floor(self.len_sq_s(), r as int);
            assert((self.x as int) * (self.x as int) >= 0 && (self.y as int) * (self.y as int)
                >= 0) by (nonlinear_arith);
            lemma_isqrt_dominates_coord(self.x as int, (self.y as int) * (self.y as int), r as int);
            assert(self.len_sq_s() == (self.y as int) * (self.y as int) + (self.x as int) * (
            self.x as int));
            lemma_isqrt_dominates_coord(self.y as int, (self.x as int) * (self.x as int), r as int);
            if !self.is_zero() {
                assert(self.len_sq_s() >= 1) by (nonlinear_arith)
                    requires
                        self.x != 0 || self.y != 0,
                ;
            }
        }
        r as i64
    }

    /// Direction of `self` in milli-units, with the zero-vector fallback.
    pub open spec fn normalize_s(self) -> Vec2Fx {
        if self.is_zero() {
            Vec2Fx { x: 0, y: 0 }
        } else {
            Vec2Fx {
                x: fx_div_s(self.x as int, self.len_s()) as i64,
                y: fx_div_s(self.y as int, self.len_s()) as i64,
            }
        }
    }

    /// Unit direction of `self` (zero when `self` is zero). Each coordinate
    /// of the result is at most one unit in magnitude.
    pub fn normalize_or_zero(self) -> (d: Vec2Fx)
        requires
            self.len_safe(),
        ensures
            d == self.normalize_s(),
            d.is_unit_box(),
    {
        if self.x == 0 && self.y == 0 {
            Vec2Fx { x: 0, y: 0 }
        } else {
            let len: i64 = self.length();
            assert(abs_of(self.x as int) * (FX_ONE as int) <= i64::MAX && abs_of(self.y as int) * (
            FX_ONE as int) <= i64::MAX) by (nonlinear_arith)
                requires
                    abs_of(self.x as int) <= 2000000000,
                    abs_of(self.y as int) <= 2000000000,
            ;
            proof {
                lemma_unit_quotient(self.x as int, len as int);
                lemma_unit_quotient(self.y as int, len as int);
            }
            let dx: i64 = fx_div(self.x, len);
            let dy: i64 = fx_div(self.y, len);
            Vec2Fx { x: dx, y: dy }
        }
    }

    /// Componentwise sum.
    pub fn add_v(self, other: Vec2Fx) -> (r: Vec2Fx)
        requires
            self.in_world(),
            other.in_world(),
        ensures
            r.x as int == self.x + other.x,
            r.y as int == self.y + other.y,
    {
        Vec2Fx { x: self.x + other.x, y: self.y + other.y }
    }

    /// Componentwise difference.
    pub fn sub_v(self, other: Vec2Fx) -> (r: Vec2Fx)
        requires
            self.in_world(),
            other.in_world(),
        ensures
            r.x as int == self.x - other.x,
            r.y as int == self.y - other.y,
    {
        Vec2Fx { x: self.x - other.x, y: self.y - other.y }
    }

    /// The opposite vector.
    pub fn neg_v(self) -> (r: Vec2Fx)
        requires
            self.in_world(),
        ensures
            r.x as int == -(self.x as int),
            r.y as int == -(self.y as int),
            self.is_unit_box() ==> r.is_unit_box(),
    {
        Vec2Fx { x: -self.x, y: -self.y }
    }

    /// Both components scaled by the fixed-point factor `k`.
    pub open spec fn scale_s(self, k: int) -> Vec2Fx {
        Vec2Fx { x: fx_mul_s(k, self.x as int) as i64, y: fx_mul_s(k, self.y as int) as i64 }
    }

    /// Fixed-point scalar multiple `k * self`.
    pub fn scale_by(self, k: i64) -> (r: Vec2Fx)
        requires
            abs_of(k as int) * abs_of(self.x as int) / (FX_ONE as int) <= i64::MAX,
            abs_of(k as int) * abs_of(self.y as int) / (FX_ONE as int) <= i64::MAX,
        ensures
            r == self.scale_s(k as int),
            r.x as int == fx_mul_s(k as int, self.x as int),
            r.y as int == fx_mul_s(k as int, self.y as int),
    {
        Vec2Fx { x: fx_mul(k, self.x), y: fx_mul(k, self.y) }
    }

    /// `self` rotated a quarter turn counterclockwise.
    pub fn perp(self) -> (r: Vec2Fx)
        requires
            self.in_world(),
        ensures
            r.x as int == -(self.y as int),
            r.y as int == self.x as int,
            self.is_unit_box() ==> r.is_unit_box(),
    {
        Vec2Fx { x: -self.y, y: self.x }
    }

    /// Dot product with a direction vector `dir` (unit box).
    pub open spec fn dot_s(self, dir: Vec2Fx) -> int {
        (self.x as int) * (dir.x as int) + (self.y as int) * (dir.y as int)
    }

    /// Dot product of a world vector with a direction vector.
    pub fn dot_unit(self, dir: Vec2Fx) -> (r: i64)
        requires
            self.len_safe(),
            dir.is_unit_box(),
        ensures
            r as int == self.dot_s(dir),
    {
        proof {
            assert(abs_of((self.x as int) * (dir.x as int)) <= 2000000000000 && abs_of(
                (self.y as int) * (dir.y as int),
            ) <= 2000000000000) by (nonlinear_arith)
                requires
                    abs_of(self.x as int) <= 2000000000,
                    abs_of(self.y as int) <= 2000000000,
                    abs_of(dir.x as int) <= 1000,
                    abs_of(dir.y as int) <= 1000,
            ;
        }
        self.x * dir.x + self.y * dir.y
    }

    /// Each component forced into `[lo, hi]`.
    pub open spec fn clamp_v_s(self, lo: int, hi: int) -> Vec2Fx {
        Vec2Fx {
            x: clamp_s(self.x as int, lo, hi) as i64,
            y: clamp_s(self.y as int, lo, hi) as i64,
        }
    }
}

/// A positive numerator no larger than the denominator yields a quotient in
/// `(0, FX_ONE]`; by symmetry `|c| <= len` keeps `fx_div_s` within one unit.
proof fn lemma_unit_quotient(c: int, len: int)
    by (nonlinear_arith)
    requires
        1 <= len,
        abs_of(c) <= len,
    ensures
        abs_of(fx_div_s(c, len)) <= FX_ONE as int,
{
}

} // verus!
