//! The size-oscillation mechanic.
//!
//! An entity's transform carries a two-component scale vector, the
//! authoritative size signal. The mechanic multiplies the scale by
//! `1 + speed * dt` each frame and clamps every component to
//! `[SCALE_MIN, SCALE_MAX]` after any mutation, so the size can never leave
//! the interval or degenerate. A toggle flips the sign of `speed`.

use vstd::prelude::*;
use crate::fx::{abs_of, clamp_s, clamp_i64, fx_mul, fx_mul_s, lemma_fx_mul_s_bound, FX_ONE};
use crate::vec2::Vec2Fx;

verus! {

/// Smallest admitted scale component: a tenth of a unit.
pub const SCALE_MIN: i64 = 100;

/// Largest admitted scale component: twenty units.
pub const SCALE_MAX: i64 = 20000;

/// Largest admitted magnitude for a scale-mechanic speed: one thousand per
/// second.
pub const SCALE_SPEED_LIMIT: i64 = 1000000;

/// Largest admitted frame delta: a thousand seconds.
pub const DT_LIMIT: i64 = 1000000;

/// Largest admitted magnitude for any growth rate applied to a scale,
/// covering bust effects at three times the mechanic's rate.
pub const GROWTH_SPEED_LIMIT: i64 = 3000000;

/// Both scale components inside the clamp interval.
pub open spec fn scale_in_bounds(v: Vec2Fx) -> bool {
    &&& SCALE_MIN as int <= v.x as int <= SCALE_MAX as int
    &&& SCALE_MIN as int <= v.y as int <= SCALE_MAX as int
}

/// Position and scale of an entity; `scale.x` is the canonical size scalar.
#[derive(Clone, Copy, Debug, PartialEq, Eq, Structural)]
pub struct Transform2 {
    pub pos: Vec2Fx,
    pub scale: Vec2Fx,
}

impl Transform2 {
    /// Structural invariant: the position inside the world range, the scale
    /// inside the clamp interval.
    pub open spec fn inv(self) -> bool {
        self.pos.in_world() && scale_in_bounds(self.scale)
    }

    /// A transform at `pos` with the uniform scale `s` on both axes.
    pub fn at(pos: Vec2Fx, s: i64) -> (r: Transform2)
        requires
            SCALE_MIN <= s <= SCALE_MAX,
        ensures
            r == (Transform2 { pos, scale: Vec2Fx { x: s, y: s } }),
    {
        Transform2 { pos, scale: Vec2Fx { x: s, y: s } }
    }
}

/// The growth factor `1 + speed * dt` in fixed point.
pub open spec fn grow_factor_s(speed: int, dt: int) -> int {
    FX_ONE as int + fx_mul_s(speed, dt)
}

/// One scale component after one application of the mechanic: multiplied by
/// the growth factor, then clamped.
pub open spec fn scale_apply_comp_s(c: int, speed: int, dt: int) -> int {
    clamp_s(fx_mul_s(c, grow_factor_s(speed, dt)), SCALE_MIN as int, SCALE_MAX as int)
}

/// The whole scale vector after one application of the mechanic.
pub open spec fn scale_apply_s(speed: int, dt: int, sc: Vec2Fx) -> Vec2Fx {
    Vec2Fx {
        x: scale_apply_comp_s(sc.x as int, speed, dt) as i64,
        y: scale_apply_comp_s(sc.y as int, speed, dt) as i64,
    }
}

/// The scale mechanic: a signed rate of size change, flipped by `swap`.
#[derive(Clone, Copy, Debug, PartialEq, Eq, Structural)]
pub struct Scale {
    pub speed: i64,
}

impl Scale {
    /// Structural invariant: the rate within the admitted magnitude.
    pub open spec fn inv(self) -> bool {
        abs_of(self.speed as int) <= SCALE_SPEED_LIMIT as int
    }

    /// The mechanic with its sign flipped.
    pub open spec fn swap_s(self) -> Scale
        recommends
            self.inv(),
    {
        Scale { speed: (-(self.speed as int)) as i64 }
    }

    /// Flip the direction of the size change.
    pub fn swap(&mut self)
        requires
            old(self).inv(),
        ensures
            *final(self) == old(self).swap_s(),
            final(self).speed as int == -(old(self).speed as int),
            final(self).inv(),
    {
        self.speed = -self.speed;
    }

    /// Apply one frame of size change to `transform`: multiply each scale
    /// component by `1 + speed * dt` and clamp it to the admitted interval.
    pub fn apply(&self, dt: i64, transform: &mut Transform2)
        requires
            self.inv(),
            0 <= dt <= DT_LIMIT,
            scale_in_bounds(old(transform).scale),
        ensures
            final(transform).pos == old(transform).pos,
            final(transform).scale == scale_apply_s(
                self.speed as int,
                dt as int,
                old(transform).scale,
            ),
            scale_in_bounds(final(transform).scale),
    {
        apply_growth(self.speed, dt, transform);
    }
}

/// Multiply both scale components of `transform` by `1 + speed * dt` and
/// clamp them: the one growth step shared by the scale mechanic and the
/// bust effect.
pub fn apply_growth(speed: i64, dt: i64, transform: &mut Transform2)
    requires
        abs_of(speed as int) <= GROWTH_SPEED_LIMIT as int,
        0 <= dt <= DT_LIMIT,
        scale_in_bounds(old(transform).scale),
    ensures
        final(transform).pos == old(transform).pos,
        final(transform).scale == scale_apply_s(speed as int, dt as int, old(transform).scale),
        scale_in_bounds(final(transform).scale),
{
    proof {
        lemma_fx_mul_s_bound(speed as int, dt as int, GROWTH_SPEED_LIMIT as int, DT_LIMIT as int);
    }
    let factor: i64 = FX_ONE + fx_mul(speed, dt);
    proof {
        lemma_fx_mul_s_bound(
            old(transform).scale.x as int,
            factor as int,
            SCALE_MAX as int,
            3000001000,
        );
        lemma_fx_mul_s_bound(
            old(transform).scale.y as int,
            factor as int,
            SCALE_MAX as int,
            3000001000,
        );
    }
    let nx: i64 = clamp_i64(fx_mul(transform.scale.x, factor), SCALE_MIN, SCALE_MAX);
    let ny: i64 = clamp_i64(fx_mul(transform.scale.y, factor), SCALE_MIN, SCALE_MAX);
    transform.scale = Vec2Fx { x: nx, y: ny };
}

/// Scale bounds law: whatever the starting component, the rate and the
/// nonnegative time step, one application of the mechanic lands inside
/// `[SCALE_MIN, SCALE_MAX]` — so any number of repeated applications stays
/// there.
pub proof fn lemma_scale_apply_in_bounds(c: int, speed: int, dt: int)
    ensures
        SCALE_MIN as int <= scale_apply_comp_s(c, speed, dt) <= SCALE_MAX as int,
        scale_in_bounds(scale_apply_s(speed, dt, Vec2Fx { x: c as i64, y: c as i64 })),
{
}

/// Toggle pairing law: two consecutive `swap` calls restore the original
/// signed speed of the mechanic.
pub proof fn lemma_swap_twice(sc: Scale)
    requires
        sc.inv(),
    ensures
        sc.swap_s().swap_s() == sc,
{
}

} // verus!
