//! Hazard kinds and the temporary effects they grant.
//!
//! A hazard's `ObstacleKind` is immutable after spawn and implies, through a
//! single exhaustive mapping, its colour, its physics bundle and its
//! optional strategy triple. On being absorbed, a hazard's kind decides the
//! one-shot or timed effect attached to the absorber.

use vstd::prelude::*;
use crate::scale::{Scale, Transform2, scale_apply_s, scale_in_bounds, apply_growth, DT_LIMIT,
    GROWTH_SPEED_LIMIT};
use crate::strategy::{Enemy, Strategy, ENEMY_RANGE};
use crate::timer::{Timer, TimerMode};
use crate::fx::abs_of;

verus! {

/// Identity of an entity in the registry.
pub type EntityId = u64;

/// How long a timed effect (bust or freeze) stays alive, in milliseconds.
pub const EFFECT_DURATION_MS: u64 = 500;

/// Solver-group memberships: everything.
pub const GROUP_ALL: u32 = 0xFFFFFFFF;

/// Solver-group membership of mobile hazards.
pub const GROUP_MOBILE: u32 = 0b10;

/// The closed set of hazard kinds.
#[derive(Clone, Copy, Debug, PartialEq, Eq, Structural)]
pub enum ObstacleKind {
    /// Mobile; on absorption busts the absorber's size up (`true`) or down
    /// (`false`).
    ScaleBust(bool),
    /// Static and inert on contact.
    Block,
    /// Mobile; freezes the absorber, then is consumed.
    Ice,
    /// Mobile; marks its target for destruction on contact.
    Poison,
}

/// Display colour of a hazard kind.
#[derive(Clone, Copy, Debug, PartialEq, Eq, Structural)]
pub enum ColorKind {
    Gray,
    Blue,
    Red,
    White,
    Green,
}

/// How the physics collaborator should treat a hazard's body.
#[derive(Clone, Copy, Debug, PartialEq, Eq, Structural)]
pub enum RigidBodyKind {
    Fixed,
    Dynamic,
}

/// The components a freshly spawned hazard of some kind carries.
#[derive(Clone, Copy, Debug, PartialEq, Eq, Structural)]
pub struct ObstacleBundle {
    pub body: RigidBodyKind,
    pub solver_memberships: u32,
    pub enemy: Option<Enemy>,
}

impl ObstacleKind {
    /// The exhaustive kind-to-bundle mapping: body behaviour, solver
    /// filter, and the strategy triple of mobile kinds.
    pub open spec fn bundle_s(self) -> ObstacleBundle {
        match self {
            ObstacleKind::Block => ObstacleBundle {
                body: RigidBodyKind::Fixed,
                solver_memberships: GROUP_ALL,
                enemy: None,
            },
            ObstacleKind::ScaleBust(_) => ObstacleBundle {
                body: RigidBodyKind::Dynamic,
                solver_memberships: GROUP_MOBILE,
                enemy: Some(
                    Enemy {
                        when_bigger: Strategy::Follow { max_distance: ENEMY_RANGE },
                        when_smaller: Strategy::Idle,
                        when_equal: Strategy::Idle,
                    },
                ),
            },
            ObstacleKind::Ice => ObstacleBundle {
                body: RigidBodyKind::Dynamic,
                solver_memberships: GROUP_MOBILE,
                enemy: Some(
                    Enemy {
                        when_bigger: Strategy::Follow { max_distance: ENEMY_RANGE },
                        when_smaller: Strategy::Follow { max_distance: ENEMY_RANGE },
                        when_equal: Strategy::Idle,
                    },
                ),
            },
            ObstacleKind::Poison => ObstacleBundle {
                body: RigidBodyKind::Dynamic,
                solver_memberships: GROUP_MOBILE,
                enemy: Some(
                    Enemy {
                        when_bigger: Strategy::Idle,
                        when_smaller: Strategy::Follow { max_distance: ENEMY_RANGE },
                        when_equal: Strategy::Idle,
                    },
                ),
            },
        }
    }

    /// The components a hazard of this kind is spawned with.
    pub fn add_bundle(&self) -> (b: ObstacleBundle)
        ensures
            b == self.bundle_s(),
    {
        match self {
            ObstacleKind::Block => ObstacleBundle {
                body: RigidBodyKind::Fixed,
                solver_memberships: GROUP_ALL,
                enemy: None,
            },
            ObstacleKind::ScaleBust(_) => ObstacleBundle {
                body: RigidBodyKind::Dynamic,
                solver_memberships: GROUP_MOBILE,
                enemy: Some(Enemy::lazy_aggressive()),
            },
            ObstacleKind::Ice => ObstacleBundle {
                body: RigidBodyKind::Dynamic,
                solver_memberships: GROUP_MOBILE,
                enemy: Some(Enemy::lazy_suicide_aggressive()),
            },
            ObstacleKind::Poison => ObstacleBundle {
                body: RigidBodyKind::Dynamic,
                solver_memberships: GROUP_MOBILE,
                enemy: Some(Enemy::lazy_suicide()),
            },
        }
    }

    /// Display colour of the kind.
    pub open spec fn color_s(self) -> ColorKind {
        match self {
            ObstacleKind::Block => ColorKind::Gray,
            ObstacleKind::ScaleBust(dir) => if dir {
                ColorKind::Blue
            } else {
                ColorKind::Red
            },
            ObstacleKind::Ice => ColorKind::White,
            ObstacleKind::Poison => ColorKind::Green,
        }
    }

    /// Display colour of the kind.
    pub fn get_color(&self) -> (c: ColorKind)
        ensures
            c == self.color_s(),
    {
        match self {
            ObstacleKind::Block => ColorKind::Gray,
            ObstacleKind::ScaleBust(dir) => {
                if *dir {
                    ColorKind::Blue
                } else {
                    ColorKind::Red
                }
            },
            ObstacleKind::Ice => ColorKind::White,
            ObstacleKind::Poison => ColorKind::Green,
        }
    }
}

/// While alive, multiplies its target's scale by `1 + speed * dt` each
/// frame (clamped); spawned when a size-bust hazard is absorbed.
#[derive(Clone, Copy, Debug, PartialEq, Eq, Structural)]
pub struct BustEffect {
    pub target: EntityId,
    pub speed: i64,
}

impl BustEffect {
    /// The effect's rate within the admitted magnitude.
    pub open spec fn inv(self) -> bool {
        abs_of(self.speed as int) <= GROWTH_SPEED_LIMIT as int
    }

    /// One frame of the bust: grow (or shrink) the target's scale, clamped.
    pub fn apply(&self, dt: i64, transform: &mut Transform2)
        requires
            self.inv(),
            0 <= dt <= DT_LIMIT,
            scale_in_bounds(old(transform).scale),
        ensures
            final(transform).pos == old(transform).pos,
            final(transform).scale == scale_apply_s(
                self.speed as int,
                dt as int,
                old(transform).scale,
            ),
            scale_in_bounds(final(transform).scale),
    {
        apply_growth(self.speed, dt, transform);
    }
}

/// While alive, zeroes its target's velocity every frame and suppresses the
/// target's scale mechanic.
#[derive(Clone, Copy, Debug, PartialEq, Eq, Structural)]
pub struct FrozenEffect {
    pub target: EntityId,
}

/// One-shot: despawns its target on the next processing step (or signals
/// game over when the target is the player), then despawns itself.
#[derive(Clone, Copy, Debug, PartialEq, Eq, Structural)]
pub struct Destroy {
    pub target: EntityId,
}

/// A lifetime attached to a timed effect entity: the entity despawns when
/// the once timer runs out.
#[derive(Clone, Copy, Debug, PartialEq, Eq, Structural)]
pub struct Temporary {
    pub timer: Timer,
}

/// What the absorption of a hazard asks the registry to spawn.
#[derive(Clone, Copy, Debug, PartialEq, Eq, Structural)]
pub enum EffectCommand {
    SpawnBust { bust: BustEffect, temporary: Temporary },
    SpawnFrozen { frozen: FrozenEffect, temporary: Temporary },
    SpawnDestroy { destroy: Destroy },
}

/// A fresh half-second once timer wrapped as a `Temporary`.
pub open spec fn effect_temporary_s() -> Temporary {
    Temporary {
        timer: Timer {
            elapsed_ms: 0u64,
            duration_ms: EFFECT_DURATION_MS,
            mode: TimerMode::Once,
            just_finished: false,
        },
    }
}

/// A hazard entity: its immutable kind.
#[derive(Clone, Copy, Debug, PartialEq, Eq, Structural)]
pub struct Obstacle {
    pub kind: ObstacleKind,
}

impl Obstacle {
    /// The effect this hazard grants when absorbed by `target`, whose scale
    /// mechanic runs at `speed`.
    pub open spec fn create_effect_s(self, target: EntityId, speed: int) -> Option<EffectCommand> {
        match self.kind {
            ObstacleKind::ScaleBust(dir) => Some(
                EffectCommand::SpawnBust {
                    bust: BustEffect {
                        target,
                        speed: (if dir {
                            speed * 2
                        } else {
                            speed * -3
                        }) as i64,
                    },
                    temporary: effect_temporary_s(),
                },
            ),
            ObstacleKind::Block => None,
            ObstacleKind::Ice => Some(
                EffectCommand::SpawnFrozen {
                    frozen: FrozenEffect { target },
                    temporary: effect_temporary_s(),
                },
            ),
            ObstacleKind::Poison => Some(
                EffectCommand::SpawnDestroy { destroy: Destroy { target } },
            ),
        }
    }

    /// What to spawn when this hazard is absorbed: a bust effect at twice
    /// the absorber's growth rate (or minus three times it for a shrinking
    /// bust), a freeze, a pending destruction — or nothing for a block.
    pub fn create_effect(&self, target: EntityId, scale: &Scale) -> (r: Option<EffectCommand>)
        requires
            scale.inv(),
        ensures
            r == self.create_effect_s(target, scale.speed as int),
            match r {
                Some(EffectCommand::SpawnBust { bust, .. }) => bust.inv(),
                _ => true,
            },
    {
        match self.kind {
            ObstacleKind::ScaleBust(dir) => {
                assert(-1000000 <= scale.speed <= 1000000);
                assert(-3000000 <= scale.speed * (-3) <= 3000000) by (nonlinear_arith)
                    requires
                        -1000000 <= scale.speed <= 1000000,
                ;
                let speed: i64 = if dir {
                    scale.speed * 2
                } else {
                    scale.speed * (-3)
                };
                Some(
                    EffectCommand::SpawnBust {
                        bust: BustEffect { target, speed },
                        temporary: Temporary { timer: Timer::new_once(EFFECT_DURATION_MS) },
                    },
                )
            },
            ObstacleKind::Block => None,
            ObstacleKind::Ice => Some(
                EffectCommand::SpawnFrozen {
                    frozen: FrozenEffect { target },
                    temporary: Temporary { timer: Timer::new_once(EFFECT_DURATION_MS) },
                },
            ),
            ObstacleKind::Poison => Some(
                EffectCommand::SpawnDestroy { destroy: Destroy { target } },
            ),
        }
    }
}

} // verus!
