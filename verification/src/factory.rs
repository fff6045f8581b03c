//! The obstacle/enemy factory.
//!
//! A repeating one-second timer drives the factory; on each completed
//! interval it emits two spawn requests, placed in a band one half viewport
//! plus a margin ahead of the advancing viewpoint and spread across the
//! viewport's width, with a random scale multiplier and a kind drawn
//! uniformly from the configured set. Every draw comes from the factory's
//! own seeded stream, so the whole request sequence is a function of the
//! seed and the viewpoint.

use vstd::prelude::*;
use crate::fx::{abs_of, fx_mul, fx_mul_s, lemma_fx_mul_s_bound};
use crate::obstacle::{ColorKind, ObstacleKind};
use crate::rng::{xorshift_s, RandomSource};
use crate::strategy::BASE_RADIUS;
use crate::timer::{Timer, TimerMode, TICK_LIMIT};
use crate::vec2::Vec2Fx;

verus! {

/// Viewport depth along the heading, in milli-units (1080 world units).
pub const VIEW_DEPTH: i64 = 1080000;

/// Viewport width across the heading, in milli-units (720 world units).
pub const VIEW_WIDTH: i64 = 720000;

/// Extra forward margin past the visible edge (64 world units).
pub const SPAWN_MARGIN: i64 = 64000;

/// Distance from the viewpoint to the middle of the spawn band: half of
/// `VIEW_DEPTH` plus `SPAWN_MARGIN`.
pub const SPAWN_AHEAD: i64 = 604000;

/// The factory's spawn interval, in milliseconds.
pub const FACTORY_INTERVAL_MS: u64 = 1000;

/// How many requests one completed interval emits.
pub const SPAWNS_PER_INTERVAL: u64 = 2;

/// Largest viewpoint coordinate the factory accepts: keeps every spawn
/// position inside the world range.
pub const SPAWN_INTERIOR_LIMIT: i64 = 999000000;

/// A request to instantiate one hazard: kind, colour, position, collider
/// radius and scale multiplier. An external spawn handler turns it into a
/// live entity.
#[derive(Clone, Copy, Debug, PartialEq, Eq, Structural)]
pub struct SpawnObstacleEvent {
    pub color: ColorKind,
    pub position: Vec2Fx,
    pub radius: i64,
    pub scale: i64,
    pub kind: ObstacleKind,
}

/// The kind drawn for a uniform draw in `[0, 5)`.
pub open spec fn kind_from_draw_s(d: int) -> ObstacleKind {
    if d == 0 {
        ObstacleKind::ScaleBust(true)
    } else if d == 1 {
        ObstacleKind::ScaleBust(false)
    } else if d == 2 {
        ObstacleKind::Block
    } else if d == 3 {
        ObstacleKind::Ice
    } else {
        ObstacleKind::Poison
    }
}

/// The spawn position for a viewpoint at `cam_pos` heading along `cam_vel`,
/// with the signed fraction `signed_unit` spreading across the band.
pub open spec fn spawn_position_s(cam_pos: Vec2Fx, cam_vel: Vec2Fx, signed_unit: int) -> Vec2Fx {
    let forward = cam_vel.normalize_s();
    let across = Vec2Fx { x: (-(forward.y as int)) as i64, y: forward.x };
    let middle = Vec2Fx {
        x: (cam_pos.x + forward.scale_s(SPAWN_AHEAD as int).x) as i64,
        y: (cam_pos.y + forward.scale_s(SPAWN_AHEAD as int).y) as i64,
    };
    let shift = across.scale_s(fx_mul_s(signed_unit, VIEW_WIDTH as int / 2));
    Vec2Fx { x: (middle.x + shift.x) as i64, y: (middle.y + shift.y) as i64 }
}

/// The event one spawn request produces from the stream state
/// `state_before`: the scale draw, the placement draw and the kind draw, in
/// that order.
pub open spec fn spawn_event_s(state_before: u64, cam_pos: Vec2Fx, cam_vel: Vec2Fx)
    -> SpawnObstacleEvent {
    let s1 = xorshift_s(state_before);
    let scale = 750 + fx_mul_s((s1 % 1001) as int, 500);
    let s2 = xorshift_s(s1);
    let signed_unit = (s2 % 2001) as int - 1000;
    let s3 = xorshift_s(s2);
    let kind = kind_from_draw_s((s3 % 5) as int);
    SpawnObstacleEvent {
        color: kind.color_s(),
        position: spawn_position_s(cam_pos, cam_vel, signed_unit),
        radius: BASE_RADIUS,
        scale: scale as i64,
        kind,
    }
}

/// The stream state after the three draws of one spawn request.
pub open spec fn spawn_rng_after_s(state_before: u64) -> u64 {
    xorshift_s(xorshift_s(xorshift_s(state_before)))
}

/// A spawn request is well formed: placed inside the world range, with the
/// base collider radius and a scale multiplier in `[0.75, 1.25]`.
pub open spec fn event_ok_s(e: SpawnObstacleEvent) -> bool {
    &&& e.position.in_world()
    &&& e.radius == BASE_RADIUS
    &&& 750 <= e.scale <= 1250
}

/// Draw one spawn request from the stream.
fn make_event(random: &mut RandomSource, cam_pos: Vec2Fx, cam_vel: Vec2Fx) -> (e:
    SpawnObstacleEvent)
    requires
        abs_of(cam_pos.x as int) <= SPAWN_INTERIOR_LIMIT as int,
        abs_of(cam_pos.y as int) <= SPAWN_INTERIOR_LIMIT as int,
        cam_vel.len_safe(),
    ensures
        e == spawn_event_s(old(random).state, cam_pos, cam_vel),
        final(random).state == spawn_rng_after_s(old(random).state),
        event_ok_s(e),
{
    let unit: i64 = random.unit_milli();
    proof {
        lemma_fx_mul_s_bound(unit as int, 500, 1000, 500);
    }
    let scale: i64 = 750 + fx_mul(unit, 500);
    let signed_unit: i64 = random.signed_unit_milli();
    let draw: u64 = random.rand_below(5);
    let kind: ObstacleKind = if draw == 0 {
        ObstacleKind::ScaleBust(true)
    } else if draw == 1 {
        ObstacleKind::ScaleBust(false)
    } else if draw == 2 {
        ObstacleKind::Block
    } else if draw == 3 {
        ObstacleKind::Ice
    } else {
        ObstacleKind::Poison
    };
    let forward: Vec2Fx = cam_vel.normalize_or_zero();
    let across: Vec2Fx = forward.perp();
    proof {
        lemma_fx_mul_s_bound(SPAWN_AHEAD as int, forward.x as int, SPAWN_AHEAD as int, 1000);
        lemma_fx_mul_s_bound(SPAWN_AHEAD as int, forward.y as int, SPAWN_AHEAD as int, 1000);
    }
    let ahead: Vec2Fx = forward.scale_by(SPAWN_AHEAD);
    let middle: Vec2Fx = cam_pos.add_v(ahead);
    proof {
        lemma_fx_mul_s_bound(signed_unit as int, 360000, 1000, 360000);
    }
    let shift_len: i64 = fx_mul(signed_unit, VIEW_WIDTH / 2);
    proof {
        lemma_fx_mul_s_bound(shift_len as int, across.x as int, 360000, 1000);
        lemma_fx_mul_s_bound(shift_len as int, across.y as int, 360000, 1000);
    }
    let shift: Vec2Fx = across.scale_by(shift_len);
    let position: Vec2Fx = middle.add_v(shift);
    let color: ColorKind = kind.get_color();
    SpawnObstacleEvent { color, position, radius: BASE_RADIUS, scale, kind }
}

/// The factory: its repeating interval timer. The random stream it owns
/// sits beside it in the registry.
#[derive(Clone, Copy, Debug, PartialEq, Eq, Structural)]
pub struct ObstacleFactoryComponent {
    pub timer: Timer,
}

impl ObstacleFactoryComponent {
    /// A factory on a fresh one-second repeating interval.
    pub fn new() -> (f: ObstacleFactoryComponent)
        ensures
            f.timer == (Timer {
                elapsed_ms: 0u64,
                duration_ms: FACTORY_INTERVAL_MS,
                mode: TimerMode::Repeating,
                just_finished: false,
            }),
            f.timer.inv(),
    {
        ObstacleFactoryComponent { timer: Timer::new_repeating(FACTORY_INTERVAL_MS) }
    }

    /// Advance the interval timer by one frame.
    pub fn tick(&mut self, delta_ms: u64)
        requires
            old(self).timer.inv(),
            delta_ms <= TICK_LIMIT,
        ensures
            final(self).timer == old(self).timer.tick_s(delta_ms as int),
            final(self).timer.inv(),
    {
        self.timer.tick(delta_ms);
    }

    /// Emit this interval's spawn requests, if the interval just completed:
    /// two events drawn from the stream, placed ahead of the viewpoint.
    /// When the interval has not completed, nothing is drawn or emitted.
    pub fn create(
        &self,
        random: &mut RandomSource,
        cam_pos: Vec2Fx,
        cam_vel: Vec2Fx,
        events: &mut Vec<SpawnObstacleEvent>,
    )
        requires
            abs_of(cam_pos.x as int) <= SPAWN_INTERIOR_LIMIT as int,
            abs_of(cam_pos.y as int) <= SPAWN_INTERIOR_LIMIT as int,
            cam_vel.len_safe(),
        ensures
            !self.timer.just_finished ==> {
                &&& *final(random) == *old(random)
                &&& final(events)@ == old(events)@
            },
            self.timer.just_finished ==> {
                &&& final(random).state == spawn_rng_after_s(
                    spawn_rng_after_s(old(random).state),
                )
                &&& final(events)@ == old(events)@.push(
                    spawn_event_s(old(random).state, cam_pos, cam_vel),
                ).push(
                    spawn_event_s(spawn_rng_after_s(old(random).state), cam_pos, cam_vel),
                )
                &&& event_ok_s(spawn_event_s(old(random).state, cam_pos, cam_vel))
                &&& event_ok_s(
                    spawn_event_s(spawn_rng_after_s(old(random).state), cam_pos, cam_vel),
                )
            },
    {
        if !self.timer.just_finished {
            return ;
        }
        let first: SpawnObstacleEvent = make_event(random, cam_pos, cam_vel);
        events.push(first);
        let second: SpawnObstacleEvent = make_event(random, cam_pos, cam_vel);
        events.push(second);
    }
}

} // verus!
