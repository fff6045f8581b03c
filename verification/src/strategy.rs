//! Enemy behaviour model.
//!
//! A hostile entity carries three `Strategy` values — one for when it is
//! bigger than the player, one for when it is smaller, one for exact size
//! equality — chosen once at spawn from the hazard kind. Every frame
//! `Enemy::tick` maps the two transforms to a desired velocity: a pure
//! function of its inputs, reproducible exactly on repeated calls.
//!
//! The equal-size bucket uses exact equality of the two derived lengths. On
//! the fixed-point integers of this crate that comparison is meaningful
//! (and actually reachable), so the rare third bucket is kept as stated
//! rather than widened to a near-equality band.

use vstd::prelude::*;
use crate::fx::{abs_of, fx_div, fx_div_s, fx_mul, fx_mul_s, isqrt, is_isqrt,
    lemma_fx_mul_s_bound, lemma_isqrt_is_sqrt_floor, lemma_isqrt_unique, sqrt_floor, FX_ONE};
use crate::scale::{scale_in_bounds, Transform2};
use crate::vec2::Vec2Fx;

verus! {

/// Radius of every collider at scale one, in milli-units (32 world units).
pub const BASE_RADIUS: i64 = 32000;

/// Base movement speed at scale one, in milli-units per second.
pub const BASE_SPEED: i64 = 200000;

/// Reaction range of the stock enemy strategies (128 world units).
pub const ENEMY_RANGE: i64 = 128000;

/// A range no distance reaches: the strategy always reacts.
pub const UNLIMITED_RANGE: i64 = i64::MAX;

/// A per-relative-size behaviour rule for a hostile entity.
#[derive(Clone, Copy, Debug, PartialEq, Eq, Structural)]
pub enum Strategy {
    /// Stay put.
    Idle,
    /// Move toward the player while it is within `max_distance`.
    Follow { max_distance: i64 },
    /// Move away from the player while it is within `max_distance`.
    Run { max_distance: i64 },
}

impl Strategy {
    /// The desired direction for a unit `direction` toward the player at
    /// the given surface `distance`.
    pub open spec fn calc_s(self, direction: Vec2Fx, distance: int) -> Vec2Fx {
        match self {
            Strategy::Idle => Vec2Fx { x: 0, y: 0 },
            Strategy::Follow { max_distance } => if max_distance as int >= distance {
                direction
            } else {
                Vec2Fx { x: 0, y: 0 }
            },
            Strategy::Run { max_distance } => if max_distance as int >= distance {
                Vec2Fx { x: (-(direction.x as int)) as i64, y: (-(direction.y as int)) as i64 }
            } else {
                Vec2Fx { x: 0, y: 0 }
            },
        }
    }

    /// Evaluate the rule on a unit direction and a distance.
    pub fn calc(&self, direction: Vec2Fx, distance: i64) -> (r: Vec2Fx)
        requires
            direction.is_unit_box(),
        ensures
            r == self.calc_s(direction, distance as int),
            r.is_unit_box(),
    {
        match self {
            Strategy::Idle => Vec2Fx { x: 0, y: 0 },
            Strategy::Follow { max_distance } => {
                if *max_distance >= distance {
                    direction
                } else {
                    Vec2Fx { x: 0, y: 0 }
                }
            },
            Strategy::Run { max_distance } => {
                if *max_distance >= distance {
                    Vec2Fx { x: -direction.x, y: -direction.y }
                } else {
                    Vec2Fx { x: 0, y: 0 }
                }
            },
        }
    }
}

/// The length of a fixed-point value under the real square root, still in
/// milli-units.
pub open spec fn sqrt_fx_s(len: int) -> int {
    sqrt_floor(len * (FX_ONE as int))
}

/// Movement speed for an entity with the given scale vector: the base speed
/// divided by the square root of the scale's length — larger entities move
/// proportionally slower.
pub open spec fn calc_speed_s(scale: Vec2Fx) -> int {
    fx_div_s(BASE_SPEED as int, sqrt_fx_s(scale.len_s()))
}

/// Movement speed from a transform's scale.
pub fn calc_speed(transform: &Transform2) -> (r: i64)
    requires
        scale_in_bounds(transform.scale),
    ensures
        r as int == calc_speed_s(transform.scale),
        1 <= r <= 633000,
{
    let len: i64 = transform.scale.length();
    assert(100 <= len <= 30000) by {
        assert(transform.scale.len_sq_s() <= 800000000) by (nonlinear_arith)
            requires
                abs_of(transform.scale.x as int) <= 20000,
                abs_of(transform.scale.y as int) <= 20000,
        ;
        assert(len as int <= 30000) by (nonlinear_arith)
            requires
                (len as int) * (len as int) <= 800000000,
                len >= 0,
        ;
    };
    let root: u64 = isqrt((len as u64) * 1000);
    proof {
        lemma_isqrt_is_sqrt_floor(len as int * (FX_ONE as int), root as int);
        assert(316 <= root <= 5478) by (nonlinear_arith)
            requires
                (root as int) * (root as int) <= (len as int) * 1000,
                (len as int) * 1000 < ((root as int) + 1) * ((root as int) + 1),
                100 <= len <= 30000,
        ;
    }
    proof {
        vstd::arithmetic::div_mod::lemma_div_is_ordered_by_denominator(200000000, 316, root as int);
        vstd::arithmetic::div_mod::lemma_div_is_ordered_by_denominator(
            200000000,
            root as int,
            5478,
        );
    }
    fx_div(BASE_SPEED, root as i64)
}

/// A hostile entity's fixed strategy triple.
#[derive(Clone, Copy, Debug, PartialEq, Eq, Structural)]
pub struct Enemy {
    pub when_bigger: Strategy,
    pub when_smaller: Strategy,
    pub when_equal: Strategy,
}

impl Default for Enemy {
    /// An enemy that never moves.
    fn default() -> (r: Enemy)
        ensures
            r == (Enemy {
                when_bigger: Strategy::Idle,
                when_smaller: Strategy::Idle,
                when_equal: Strategy::Idle,
            }),
    {
        Enemy {
            when_bigger: Strategy::Idle,
            when_smaller: Strategy::Idle,
            when_equal: Strategy::Idle,
        }
    }
}

impl Enemy {
    /// Chases only prey it outgrows; ignores a bigger player.
    pub fn lazy_aggressive() -> (r: Enemy)
        ensures
            r == (Enemy {
                when_bigger: Strategy::Follow { max_distance: ENEMY_RANGE },
                when_smaller: Strategy::Idle,
                when_equal: Strategy::Idle,
            }),
    {
        Enemy {
            when_bigger: Strategy::Follow { max_distance: ENEMY_RANGE },
            when_smaller: Strategy::Idle,
            when_equal: Strategy::Idle,
        }
    }

    /// Seeks the player only while smaller: it wants to be absorbed.
    pub fn lazy_suicide() -> (r: Enemy)
        ensures
            r == (Enemy {
                when_bigger: Strategy::Idle,
                when_smaller: Strategy::Follow { max_distance: ENEMY_RANGE },
                when_equal: Strategy::Idle,
            }),
    {
        Enemy {
            when_bigger: Strategy::Idle,
            when_smaller: Strategy::Follow { max_distance: ENEMY_RANGE },
            when_equal: Strategy::Idle,
        }
    }

    /// Chases whatever its relative size, within range.
    pub fn lazy_suicide_aggressive() -> (r: Enemy)
        ensures
            r == (Enemy {
                when_bigger: Strategy::Follow { max_distance: ENEMY_RANGE },
                when_smaller: Strategy::Follow { max_distance: ENEMY_RANGE },
                when_equal: Strategy::Idle,
            }),
    {
        Enemy {
            when_bigger: Strategy::Follow { max_distance: ENEMY_RANGE },
            when_smaller: Strategy::Follow { max_distance: ENEMY_RANGE },
            when_equal: Strategy::Idle,
        }
    }

    /// Chases while bigger and flees while smaller, within range.
    pub fn lazy_smart_aggressive() -> (r: Enemy)
        ensures
            r == (Enemy {
                when_bigger: Strategy::Follow { max_distance: ENEMY_RANGE },
                when_smaller: Strategy::Run { max_distance: ENEMY_RANGE },
                when_equal: Strategy::Idle,
            }),
    {
        Enemy {
            when_bigger: Strategy::Follow { max_distance: ENEMY_RANGE },
            when_smaller: Strategy::Run { max_distance: ENEMY_RANGE },
            when_equal: Strategy::Idle,
        }
    }

    /// Chases while bigger and flees while smaller, at any distance.
    pub fn smart_aggressive() -> (r: Enemy)
        ensures
            r == (Enemy {
                when_bigger: Strategy::Follow { max_distance: UNLIMITED_RANGE },
                when_smaller: Strategy::Run { max_distance: UNLIMITED_RANGE },
                when_equal: Strategy::Idle,
            }),
    {
        Enemy {
            when_bigger: Strategy::Follow { max_distance: UNLIMITED_RANGE },
            when_smaller: Strategy::Run { max_distance: UNLIMITED_RANGE },
            when_equal: Strategy::Idle,
        }
    }

    /// The strategy selected for the relative size of enemy and player.
    pub open spec fn select_s(self, enemy_len: int, player_len: int) -> Strategy {
        if enemy_len > player_len {
            self.when_bigger
        } else if player_len > enemy_len {
            self.when_smaller
        } else {
            self.when_equal
        }
    }

    /// The desired velocity for the given enemy and player transforms.
    pub open spec fn tick_s(self, enemy_t: Transform2, player_t: Transform2) -> Vec2Fx {
        let enemy_len = enemy_t.scale.len_s();
        let player_len = player_t.scale.len_s();
        let player_radius = fx_mul_s(player_len, BASE_RADIUS as int);
        let diff = Vec2Fx {
            x: (player_t.pos.x - enemy_t.pos.x) as i64,
            y: (player_t.pos.y - enemy_t.pos.y) as i64,
        };
        let direction = diff.normalize_s();
        let distance = if diff.len_s() - player_radius >= 0 {
            diff.len_s() - player_radius
        } else {
            0
        };
        let chosen = self.select_s(enemy_len, player_len).calc_s(direction, distance);
        chosen.scale_s(calc_speed_s(enemy_t.scale))
    }

    /// One behaviour step: compare sizes, pick the strategy bucket, head
    /// along (or away from) the player, scaled by the size-dependent speed.
    /// The result is a pure function of the two transforms and the triple.
    pub fn tick(&self, enemy_t: &Transform2, player_t: &Transform2) -> (v: Vec2Fx)
        requires
            enemy_t.inv(),
            player_t.inv(),
        ensures
            v == self.tick_s(*enemy_t, *player_t),
            abs_of(v.x as int) <= 633000,
            abs_of(v.y as int) <= 633000,
    {
        let enemy_len: i64 = enemy_t.scale.length();
        let player_len: i64 = player_t.scale.length();
        proof {
            lemma_fx_mul_s_bound(player_len as int, BASE_RADIUS as int, 3000000000, 32000);
        }
        let player_radius: i64 = fx_mul(player_len, BASE_RADIUS);
        let diff: Vec2Fx = player_t.pos.sub_v(enemy_t.pos);
        let direction: Vec2Fx = diff.normalize_or_zero();
        let diff_len: i64 = diff.length();
        let distance: i64 = if diff_len - player_radius >= 0 {
            diff_len - player_radius
        } else {
            0
        };
        let chosen: Strategy = if enemy_len > player_len {
            self.when_bigger
        } else if player_len > enemy_len {
            self.when_smaller
        } else {
            self.when_equal
        };
        let dir: Vec2Fx = chosen.calc(direction, distance);
        let speed: i64 = calc_speed(enemy_t);
        proof {
            lemma_fx_mul_s_bound(speed as int, dir.x as int, 633000, 1000);
            lemma_fx_mul_s_bound(speed as int, dir.y as int, 633000, 1000);
        }
        dir.scale_by(speed)
    }
}

/// Behaviour determinism law: the desired velocity is a function of the
/// strategy triple and the two transforms alone — repeated evaluation on
/// equal inputs yields the identical velocity.
pub proof fn lemma_tick_deterministic(
    e1: Enemy,
    e2: Enemy,
    enemy1: Transform2,
    enemy2: Transform2,
    player1: Transform2,
    player2: Transform2,
)
    requires
        e1 == e2,
        enemy1 == enemy2,
        player1 == player2,
    ensures
        e1.tick_s(enemy1, player1) == e2.tick_s(enemy2, player2),
{
}

} // verus!
