//! The simulated world and its per-frame systems.
//!
//! The entity registry is modelled explicitly: the singleton viewpoint,
//! player, factory and score, plus the living hazards and effect entities.
//! Each system is a total function of the world and the frame's inputs
//! (elapsed time, the input action snapshot, the physics engine's contact
//! reports), so one frame of the game is an exact, reproducible step.
//!
//! Missing singletons are never faults: a system that cannot locate the
//! viewpoint or the player this frame simply performs no work.

use vstd::prelude::*;
use crate::collision::{resolve_hit, resolve_hit_s, Contact, HitOutcome};
use crate::culling::{behind, behind_s};
use crate::factory::{
    event_ok_s, spawn_event_s, spawn_rng_after_s, ObstacleFactoryComponent, SpawnObstacleEvent,
    FACTORY_INTERVAL_MS, SPAWN_INTERIOR_LIMIT,
};
use crate::fx::abs_of;
use crate::obstacle::{
    BustEffect, Destroy, EffectCommand, EntityId, FrozenEffect, Obstacle, RigidBodyKind, Temporary,
};
use crate::rng::RandomSource;
use crate::scale::{scale_apply_s, scale_in_bounds, Scale, Transform2, DT_LIMIT};
use crate::score::TimeScore;
use crate::state::{ActionState, GameEvent, GameState};
use crate::strategy::{calc_speed, Enemy};
use crate::timer::{Timer, TimerMode, TICK_LIMIT};
use crate::vec2::Vec2Fx;

verus! {

/// Initial signed rate of the player's size oscillation (one half per
/// second).
pub const INITIAL_SCALE_SPEED: i64 = 500;

/// The viewpoint's constant forward speed (80 world units per second).
pub const CAMERA_SPEED: i64 = 80000;

/// The moving viewpoint: a camera proxy advancing at a constant velocity.
#[derive(Clone, Copy, Debug, PartialEq, Eq, Structural)]
pub struct CameraState {
    pub transform: Transform2,
    pub velocity: Vec2Fx,
}

impl CameraState {
    /// Structural invariant: a valid transform held inside the interior of
    /// the world (so that spawn positions stay in range), and a velocity
    /// whose length is computable.
    pub open spec fn inv(self) -> bool {
        &&& self.transform.inv()
        &&& abs_of(self.transform.pos.x as int) <= SPAWN_INTERIOR_LIMIT as int
        &&& abs_of(self.transform.pos.y as int) <= SPAWN_INTERIOR_LIMIT as int
        &&& self.velocity.len_safe()
    }
}

/// The player-controlled entity.
#[derive(Clone, Copy, Debug, PartialEq, Eq, Structural)]
pub struct PlayerState {
    pub id: EntityId,
    pub transform: Transform2,
    pub velocity: Vec2Fx,
    pub scale: Scale,
    /// Whether the renderer reported the entity on screen this frame.
    pub visible: bool,
}

impl PlayerState {
    pub open spec fn inv(self) -> bool {
        self.transform.inv() && self.scale.inv()
    }
}

/// A living hazard entity.
#[derive(Clone, Copy, Debug, PartialEq, Eq, Structural)]
pub struct ObstacleState {
    pub id: EntityId,
    pub obstacle: Obstacle,
    pub transform: Transform2,
    pub velocity: Vec2Fx,
    pub body: RigidBodyKind,
    pub solver_memberships: u32,
    pub radius: i64,
    pub enemy: Option<Enemy>,
    /// Whether the renderer reported the entity on screen this frame.
    pub visible: bool,
}

impl ObstacleState {
    pub open spec fn inv(self) -> bool {
        self.transform.inv()
    }
}

/// The payload of a live effect entity.
#[derive(Clone, Copy, Debug, PartialEq, Eq, Structural)]
pub enum EffectData {
    Bust(BustEffect),
    Frozen(FrozenEffect),
    Destroying(Destroy),
}

impl EffectData {
    /// The entity this effect acts on (a weak reference: the target may be
    /// gone).
    pub open spec fn target_s(self) -> EntityId {
        match self {
            EffectData::Bust(b) => b.target,
            EffectData::Frozen(f) => f.target,
            EffectData::Destroying(d) => d.target,
        }
    }

    /// Whether this effect freezes the entity `id`.
    pub open spec fn freezes_s(self, id: EntityId) -> bool {
        match self {
            EffectData::Frozen(f) => f.target == id,
            _ => false,
        }
    }

    pub open spec fn inv(self) -> bool {
        match self {
            EffectData::Bust(b) => b.inv(),
            _ => true,
        }
    }
}

/// A live effect entity: its payload and, for timed effects, its lifetime.
#[derive(Clone, Copy, Debug, PartialEq, Eq, Structural)]
pub struct EffectState {
    pub id: EntityId,
    pub data: EffectData,
    pub temporary: Option<Temporary>,
}

impl EffectState {
    pub open spec fn inv(self) -> bool {
        &&& self.data.inv()
        &&& match self.temporary {
            Some(t) => t.timer.inv(),
            None => true,
        }
    }
}

/// The obstacle factory entity: its interval timer and its own random
/// stream.
#[derive(Clone, Copy, Debug, PartialEq, Eq, Structural)]
pub struct FactoryState {
    pub component: ObstacleFactoryComponent,
    pub random: RandomSource,
}

/// Whether some effect in `effects` freezes the entity `id`.
pub open spec fn frozen_in_s(effects: Seq<EffectState>, id: EntityId) -> bool {
    exists|j: int| 0 <= j < effects.len() && (#[trigger] effects[j]).data.freezes_s(id)
}

/// Scan for a freeze on entity `id`.
pub fn is_frozen(effects: &Vec<EffectState>, id: EntityId) -> (r: bool)
    ensures
        r == frozen_in_s(effects@, id),
{
    let mut i: usize = 0;
    while i < effects.len()
        invariant
            0 <= i <= effects@.len(),
            forall|j: int| 0 <= j < i ==> !(#[trigger] effects@[j]).data.freezes_s(id),
        decreases effects@.len() - i,
    {
        let frozen: bool = match &effects[i].data {
            EffectData::Frozen(f) => f.target == id,
            _ => false,
        };
        if frozen {
            assert(effects@[i as int].data.freezes_s(id));
            return true;
        }
        i = i + 1;
    }
    false
}

/// The whole simulated world: the run state, the registry's entities, and
/// this frame's pending events.
pub struct World {
    /// The current run state; systems are gated on it.
    pub state: GameState,
    /// The requested next run state, applied once per frame.
    pub next_state: Option<GameState>,
    /// Whether simulation time is paused.
    pub time_paused: bool,
    /// The next fresh entity identity.
    pub next_id: EntityId,
    /// The world-level random stream that seeds per-factory streams.
    pub global_rng: RandomSource,
    pub camera: Option<CameraState>,
    pub player: Option<PlayerState>,
    pub obstacles: Vec<ObstacleState>,
    pub effects: Vec<EffectState>,
    pub factory: Option<FactoryState>,
    pub score: Option<TimeScore>,
    /// Run-level events emitted this frame, drained by the event system.
    pub events: Vec<GameEvent>,
    /// Spawn requests emitted by the factory, drained by the spawn system.
    pub spawn_events: Vec<SpawnObstacleEvent>,
}

impl World {
    /// Structural invariant of the whole world.
    pub open spec fn wf(self) -> bool {
        &&& match self.camera {
            Some(c) => c.inv(),
            None => true,
        }
        &&& match self.player {
            Some(p) => p.inv(),
            None => true,
        }
        &&& forall|i: int| 0 <= i < self.obstacles@.len() ==> (#[trigger] self.obstacles@[i]).inv()
        &&& forall|i: int| 0 <= i < self.effects@.len() ==> (#[trigger] self.effects@[i]).inv()
        &&& match self.factory {
            Some(f) => f.component.timer.inv(),
            None => true,
        }
        &&& forall|i: int|
            0 <= i < self.spawn_events@.len() ==> event_ok_s(#[trigger] self.spawn_events@[i])
    }

    /// A fresh world in the Startup state, before any entity exists.
    pub fn new(seed: u64) -> (w: World)
        ensures
            w.wf(),
            w.state == GameState::Startup,
            w.next_state is None,
            !w.time_paused,
            w.camera is None,
            w.player is None,
            w.obstacles@.len() == 0,
            w.effects@.len() == 0,
            w.factory is None,
            w.score is None,
            w.events@.len() == 0,
            w.spawn_events@.len() == 0,
    {
        World {
            state: GameState::Startup,
            next_state: None,
            time_paused: false,
            next_id: 1,
            global_rng: RandomSource::new(seed),
            camera: None,
            player: None,
            obstacles: Vec::new(),
            effects: Vec::new(),
            factory: None,
            score: None,
            events: Vec::new(),
            spawn_events: Vec::new(),
        }
    }
}

/// Spawn the permanent camera proxy: at the origin, advancing at the
/// constant camera speed.
pub fn spawn_camera_system(w: &mut World)
    requires
        old(w).wf(),
    ensures
        final(w).wf(),
        final(w).camera == Some(
            CameraState {
                transform: Transform2 {
                    pos: Vec2Fx { x: 0i64, y: 0i64 },
                    scale: Vec2Fx { x: 1000i64, y: 1000i64 },
                },
                velocity: Vec2Fx { x: 0i64, y: CAMERA_SPEED },
            },
        ),
        *final(w) == (World { camera: final(w).camera, ..*old(w) }),
{
    w.camera = Some(
        CameraState {
            transform: Transform2 {
                pos: Vec2Fx { x: 0, y: 0 },
                scale: Vec2Fx { x: 1000, y: 1000 },
            },
            velocity: Vec2Fx { x: 0, y: CAMERA_SPEED },
        },
    );
}

/// Reset the camera proxy to the origin (run on entering Startup).
pub fn reset_camera_system(w: &mut World)
    requires
        old(w).wf(),
    ensures
        final(w).wf(),
        match old(w).camera {
            Some(c) => final(w).camera == Some(
                CameraState { transform: Transform2 { pos: Vec2Fx { x: 0i64, y: 0i64 }, ..c.transform }, ..c },
            ),
            None => final(w).camera is None,
        },
        *final(w) == (World { camera: final(w).camera, ..*old(w) }),
{
    if let Some(c) = w.camera {
        w.camera = Some(
            CameraState {
                transform: Transform2 { pos: Vec2Fx { x: 0, y: 0 }, scale: c.transform.scale },
                velocity: c.velocity,
            },
        );
    }
}

/// World setup on entering Startup: unpause simulation time, request the
/// Running state, spawn the obstacle factory (with a stream forked off the
/// world seed) and a zeroed score.
pub fn spawn_world(w: &mut World)
    requires
        old(w).wf(),
    ensures
        final(w).wf(),
        !final(w).time_paused,
        final(w).next_state == Some(GameState::Running),
        final(w).factory == Some(
            FactoryState {
                component: ObstacleFactoryComponent {
                    timer: Timer {
                        elapsed_ms: 0u64,
                        duration_ms: FACTORY_INTERVAL_MS,
                        mode: TimerMode::Repeating,
                        just_finished: false,
                    },
                },
                random: RandomSource {
                    state: crate::rng::xorshift_s(old(w).global_rng.state),
                },
            },
        ),
        final(w).score == Some(TimeScore { elapsed_ms: 0u64 }),
        final(w).global_rng.state == crate::rng::xorshift_s(old(w).global_rng.state),
        *final(w) == (World {
            time_paused: false,
            next_state: Some(GameState::Running),
            factory: final(w).factory,
            score: final(w).score,
            global_rng: final(w).global_rng,
            ..*old(w)
        }),
{
    w.time_paused = false;
    w.next_state = Some(GameState::Running);
    let fork: u64 = w.global_rng.next_u64();
    w.factory = Some(
        FactoryState {
            component: ObstacleFactoryComponent::new(),
            random: RandomSource { state: fork },
        },
    );
    w.score = Some(TimeScore { elapsed_ms: 0 });
}

/// Spawn the player: at the origin at unit scale, with the oscillation
/// mechanic at its initial rate.
pub fn spawn_player_system(w: &mut World)
    requires
        old(w).wf(),
        old(w).next_id < 0xFFFFFFFFFFFFFFFF,
    ensures
        final(w).wf(),
        final(w).player == Some(
            PlayerState {
                id: old(w).next_id,
                transform: Transform2 {
                    pos: Vec2Fx { x: 0i64, y: 0i64 },
                    scale: Vec2Fx { x: 1000i64, y: 1000i64 },
                },
                velocity: Vec2Fx { x: 0i64, y: 0i64 },
                scale: Scale { speed: INITIAL_SCALE_SPEED },
                visible: true,
            },
        ),
        final(w).next_id == old(w).next_id + 1,
        *final(w) == (World {
            player: final(w).player,
            next_id: final(w).next_id,
            ..*old(w)
        }),
{
    let id: EntityId = w.next_id;
    w.next_id = w.next_id + 1;
    w.player = Some(
        PlayerState {
            id,
            transform: Transform2 {
                pos: Vec2Fx { x: 0, y: 0 },
                scale: Vec2Fx { x: 1000, y: 1000 },
            },
            velocity: Vec2Fx { x: 0, y: 0 },
            scale: Scale { speed: INITIAL_SCALE_SPEED },
            visible: true,
        },
    );
}

/// Drive the player from the movement axis: zero velocity while frozen,
/// otherwise the normalized axis scaled by the size-dependent speed.
pub fn player_move_system(w: &mut World, input: &ActionState)
    requires
        old(w).wf(),
        abs_of(input.move_x as int) <= 1000,
        abs_of(input.move_y as int) <= 1000,
    ensures
        final(w).wf(),
        old(w).player is None ==> *final(w) == *old(w),
        match old(w).player {
            Some(p) => *final(w) == (World {
                player: Some(
                    PlayerState {
                        velocity: if frozen_in_s(old(w).effects@, p.id) {
                            Vec2Fx { x: 0i64, y: 0i64 }
                        } else {
                            (Vec2Fx { x: input.move_x, y: input.move_y }).normalize_s().scale_s(
                                crate::strategy::calc_speed_s(p.transform.scale),
                            )
                        },
                        ..p
                    },
                ),
                ..*old(w)
            }),
            None => true,
        },
{
    if let Some(p) = w.player {
        if is_frozen(&w.effects, p.id) {
            w.player = Some(PlayerState { velocity: Vec2Fx { x: 0, y: 0 }, ..p });
        } else {
            let axis: Vec2Fx = Vec2Fx { x: input.move_x, y: input.move_y };
            let dir: Vec2Fx = axis.normalize_or_zero();
            let speed: i64 = calc_speed(&p.transform);
            proof {
                crate::fx::lemma_fx_mul_s_bound(speed as int, dir.x as int, 633000, 1000);
                crate::fx::lemma_fx_mul_s_bound(speed as int, dir.y as int, 633000, 1000);
            }
            let vel: Vec2Fx = dir.scale_by(speed);
            w.player = Some(PlayerState { velocity: vel, ..p });
        }
    }
}

/// Pause on the pause action while the run is in play.
pub fn player_pause_system(w: &mut World, input: &ActionState)
    requires
        old(w).wf(),
    ensures
        final(w).wf(),
        if old(w).player is Some && input.just_pressed_pause && !old(w).time_paused {
            *final(w) == (World {
                next_state: Some(GameState::Pause),
                time_paused: true,
                ..*old(w)
            })
        } else {
            *final(w) == *old(w)
        },
{
    if w.player.is_some() {
        if input.just_pressed_pause {
            if !w.time_paused {
                w.next_state = Some(GameState::Pause);
                w.time_paused = true;
            }
        }
    }
}

/// Resume on the pause action while paused.
pub fn player_unpause_system(w: &mut World, input: &ActionState)
    requires
        old(w).wf(),
    ensures
        final(w).wf(),
        if old(w).player is Some && input.just_pressed_pause && old(w).time_paused {
            *final(w) == (World {
                next_state: Some(GameState::Running),
                time_paused: false,
                ..*old(w)
            })
        } else {
            *final(w) == *old(w)
        },
{
    if w.player.is_some() {
        if input.just_pressed_pause {
            if w.time_paused {
                w.next_state = Some(GameState::Running);
                w.time_paused = false;
            }
        }
    }
}

/// On the restart action after a run has ended: emit a Start event and
/// tear down every non-permanent entity (everything but the camera proxy),
/// dropping stale spawn requests with them.
pub fn player_restart_system(w: &mut World, input: &ActionState)
    requires
        old(w).wf(),
    ensures
        final(w).wf(),
        if old(w).player is Some && input.just_released_start {
            &&& final(w).events@ == old(w).events@.push(GameEvent::Start)
            &&& final(w).player is None
            &&& final(w).obstacles@.len() == 0
            &&& final(w).effects@.len() == 0
            &&& final(w).factory is None
            &&& final(w).score is None
            &&& final(w).spawn_events@.len() == 0
            &&& final(w).camera == old(w).camera
            &&& final(w).state == old(w).state
            &&& final(w).next_state == old(w).next_state
            &&& final(w).time_paused == old(w).time_paused
            &&& final(w).next_id == old(w).next_id
            &&& final(w).global_rng == old(w).global_rng
        } else {
            *final(w) == *old(w)
        },
{
    if w.player.is_some() {
        if input.just_released_start {
            w.events.push(GameEvent::Start);
            w.player = None;
            w.obstacles.clear();
            w.effects.clear();
            w.factory = None;
            w.score = None;
            w.spawn_events.clear();
        }
    }
}

/// Flip the player's size-oscillation direction on the swap action.
pub fn player_swap_scale_system(w: &mut World, input: &ActionState)
    requires
        old(w).wf(),
    ensures
        final(w).wf(),
        match old(w).player {
            Some(p) => if input.just_pressed_swap {
                *final(w) == (World {
                    player: Some(PlayerState { scale: p.scale.swap_s(), ..p }),
                    ..*old(w)
                })
            } else {
                *final(w) == *old(w)
            },
            None => *final(w) == *old(w),
        },
{
    if let Some(p) = w.player {
        if input.just_pressed_swap {
            let mut sc: Scale = p.scale;
            sc.swap();
            w.player = Some(PlayerState { scale: sc, ..p });
        }
    }
}

/// Advance the player's size oscillation, unless a freeze suppresses it.
pub fn apply_scale_system(w: &mut World, dt: i64)
    requires
        old(w).wf(),
        0 <= dt <= DT_LIMIT,
    ensures
        final(w).wf(),
        match old(w).player {
            Some(p) => if frozen_in_s(old(w).effects@, p.id) {
                *final(w) == *old(w)
            } else {
                *final(w) == (World {
                    player: Some(
                        PlayerState {
                            transform: Transform2 {
                                pos: p.transform.pos,
                                scale: scale_apply_s(
                                    p.scale.speed as int,
                                    dt as int,
                                    p.transform.scale,
                                ),
                            },
                            ..p
                        },
                    ),
                    ..*old(w)
                })
            },
            None => *final(w) == *old(w),
        },
{
    if let Some(p) = w.player {
        if !is_frozen(&w.effects, p.id) {
            let mut t: Transform2 = p.transform;
            p.scale.apply(dt, &mut t);
            w.player = Some(PlayerState { transform: t, ..p });
        }
    }
}

/// Account the frame's elapsed time to the score.
pub fn time_score_system(w: &mut World, dt_ms: u64)
    requires
        old(w).wf(),
    ensures
        final(w).wf(),
        match old(w).score {
            Some(sc) => *final(w) == (World {
                score: Some(
                    TimeScore {
                        elapsed_ms: if sc.elapsed_ms + dt_ms <= u64::MAX {
                            (sc.elapsed_ms + dt_ms) as u64
                        } else {
                            u64::MAX
                        },
                    },
                ),
                ..*old(w)
            }),
            None => *final(w) == *old(w),
        },
{
    if let Some(sc) = w.score {
        let mut sc2: TimeScore = sc;
        sc2.tick(dt_ms);
        w.score = Some(sc2);
    }
}

/// What the factory system leaves behind: the interval timer ticked and,
/// when the tick completed the interval, this interval's two spawn
/// requests appended and the stream advanced; the rest of the world kept.
pub open spec fn factory_system_post(pre: World, post: World, dt_ms: int) -> bool {
    match (pre.camera, pre.player, pre.factory) {
        (Some(cam), Some(_p), Some(f)) => {
            let ticked = f.component.timer.tick_s(dt_ms);
            &&& post.factory is Some
            &&& post.factory->0.component.timer == ticked
            &&& if ticked.just_finished {
                &&& post.factory->0.random.state == spawn_rng_after_s(
                    spawn_rng_after_s(f.random.state),
                )
                &&& post.spawn_events@ == pre.spawn_events@.push(
                    spawn_event_s(f.random.state, cam.transform.pos, cam.velocity),
                ).push(
                    spawn_event_s(
                        spawn_rng_after_s(f.random.state),
                        cam.transform.pos,
                        cam.velocity,
                    ),
                )
            } else {
                &&& post.factory->0.random == f.random
                &&& post.spawn_events@ == pre.spawn_events@
            }
            &&& post == (World {
                factory: post.factory,
                spawn_events: post.spawn_events,
                ..pre
            })
        },
        _ => post == pre,
    }
}

/// Tick the factory and, when its interval completes and both the
/// viewpoint and the player can be located, emit this interval's spawn
/// requests. With either singleton missing the factory does no work.
pub fn obstacle_factory_system(w: &mut World, dt_ms: u64)
    requires
        old(w).wf(),
        dt_ms <= TICK_LIMIT,
    ensures
        final(w).wf(),
        factory_system_post(*old(w), *final(w), dt_ms as int),
{
    if w.camera.is_some() && w.player.is_some() {
        if let Some(f) = w.factory {
            let cam: CameraState = w.camera.unwrap();
            let mut component: ObstacleFactoryComponent = f.component;
            let mut random: RandomSource = f.random;
            component.tick(dt_ms);
            component.create(&mut random, cam.transform.pos, cam.velocity, &mut w.spawn_events);
            w.factory = Some(FactoryState { component, random });
        }
    }
}


/// The hazard entity a spawn request instantiates, under a fresh identity:
/// collider radius and scale from the request, components from the kind's
/// bundle, at rest and initially on screen.
pub open spec fn obstacle_from_event_s(e: SpawnObstacleEvent, id: EntityId) -> ObstacleState {
    let bundle = e.kind.bundle_s();
    ObstacleState {
        id,
        obstacle: Obstacle { kind: e.kind },
        transform: Transform2 { pos: e.position, scale: Vec2Fx { x: e.scale, y: e.scale } },
        velocity: Vec2Fx { x: 0i64, y: 0i64 },
        body: bundle.body,
        solver_memberships: bundle.solver_memberships,
        radius: e.radius,
        enemy: bundle.enemy,
        visible: true,
    }
}

/// What the spawn system leaves behind: every pending request turned into
/// a live hazard under consecutive fresh identities, the queue drained, the
/// rest of the world kept.
pub open spec fn spawn_obstacle_post(pre: World, post: World) -> bool {
    &&& post.obstacles@ == pre.obstacles@ + pre.spawn_events@.map(
        |j: int, e: SpawnObstacleEvent| obstacle_from_event_s(e, (pre.next_id + j) as u64),
    )
    &&& post.spawn_events@.len() == 0
    &&& post.next_id == pre.next_id + pre.spawn_events@.len()
    &&& post == (World {
        obstacles: post.obstacles,
        spawn_events: post.spawn_events,
        next_id: post.next_id,
        ..pre
    })
}

/// Turn every pending spawn request into a live hazard entity.
pub fn spawn_obstacle_system(w: &mut World)
    requires
        old(w).wf(),
        old(w).next_id + old(w).spawn_events@.len() <= u64::MAX,
    ensures
        final(w).wf(),
        spawn_obstacle_post(*old(w), *final(w)),
{
    let n: usize = w.spawn_events.len();
    let mut i: usize = 0;
    while i < n
        invariant
            old(w).wf(),
            n == old(w).spawn_events@.len(),
            0 <= i <= n,
            old(w).next_id + n <= u64::MAX,
            w.spawn_events@ == old(w).spawn_events@,
            w.next_id == old(w).next_id + i,
            w.obstacles@ == old(w).obstacles@ + old(w).spawn_events@.take(i as int).map(
                |j: int, e: SpawnObstacleEvent| obstacle_from_event_s(e, (old(w).next_id + j) as u64),
            ),
            forall|k: int| 0 <= k < w.obstacles@.len() ==> (#[trigger] w.obstacles@[k]).inv(),
            *w == (World {
                obstacles: w.obstacles,
                spawn_events: w.spawn_events,
                next_id: w.next_id,
                ..*old(w)
            }),
        decreases n - i,
    {
        let e: SpawnObstacleEvent = w.spawn_events[i];
        let bundle = e.kind.add_bundle();
        let id: EntityId = w.next_id;
        w.next_id = w.next_id + 1;
        let fresh = ObstacleState {
            id,
            obstacle: Obstacle { kind: e.kind },
            transform: Transform2 { pos: e.position, scale: Vec2Fx { x: e.scale, y: e.scale } },
            velocity: Vec2Fx { x: 0, y: 0 },
            body: bundle.body,
            solver_memberships: bundle.solver_memberships,
            radius: e.radius,
            enemy: bundle.enemy,
            visible: true,
        };
        assert(event_ok_s(old(w).spawn_events@[i as int]));
        w.obstacles.push(fresh);
        proof {
            assert(old(w).spawn_events@.take(i + 1 as int).map(
                |j: int, ev: SpawnObstacleEvent| obstacle_from_event_s(
                    ev,
                    (old(w).next_id + j) as u64,
                ),
            ) =~= old(w).spawn_events@.take(i as int).map(
                |j: int, ev: SpawnObstacleEvent| obstacle_from_event_s(
                    ev,
                    (old(w).next_id + j) as u64,
                ),
            ).push(fresh));
        }
        i = i + 1;
    }
    w.spawn_events.clear();
    proof {
        assert(old(w).spawn_events@.take(n as int) =~= old(w).spawn_events@);
    }
}

/// A hazard after one behaviour step against the player `p`.
pub open spec fn enemy_updated_s(o: ObstacleState, p: PlayerState) -> ObstacleState {
    match o.enemy {
        Some(en) => ObstacleState { velocity: en.tick_s(o.transform, p.transform), ..o },
        None => o,
    }
}

/// What the behaviour system leaves behind: every hostile hazard's desired
/// velocity recomputed against the player; a missing player is a no-op.
pub open spec fn enemy_system_post(pre: World, post: World) -> bool {
    match pre.player {
        None => post == pre,
        Some(p) => {
            &&& post.obstacles@.len() == pre.obstacles@.len()
            &&& forall|k: int|
                0 <= k < pre.obstacles@.len() ==> post.obstacles@[k] == enemy_updated_s(
                    #[trigger] pre.obstacles@[k],
                    p,
                )
            &&& post == (World { obstacles: post.obstacles, ..pre })
        },
    }
}

/// Recompute each hostile hazard's desired velocity from its strategy
/// triple and the player's transform.
pub fn enemy_system(w: &mut World)
    requires
        old(w).wf(),
    ensures
        final(w).wf(),
        enemy_system_post(*old(w), *final(w)),
{
    if let Some(p) = w.player {
        let n: usize = w.obstacles.len();
        let mut i: usize = 0;
        while i < n
            invariant
                old(w).wf(),
                old(w).player == Some(p),
                n == old(w).obstacles@.len(),
                0 <= i <= n,
                w.obstacles@.len() == n,
                forall|k: int|
                    0 <= k < i ==> w.obstacles@[k] == enemy_updated_s(
                        #[trigger] old(w).obstacles@[k],
                        p,
                    ),
                forall|k: int| i <= k < n ==> w.obstacles@[k] == old(w).obstacles@[k],
                forall|k: int| 0 <= k < n ==> (#[trigger] w.obstacles@[k]).inv(),
                *w == (World { obstacles: w.obstacles, ..*old(w) }),
            decreases n - i,
        {
            let o: ObstacleState = w.obstacles[i];
            if let Some(en) = o.enemy {
                assert(old(w).obstacles@[i as int].inv());
                let v: Vec2Fx = en.tick(&o.transform, &p.transform);
                w.obstacles[i] = ObstacleState { velocity: v, ..o };
            }
            i = i + 1;
        }
    }
}

/// What the event system leaves behind: the queue drained; a game-over
/// anywhere in it pauses time; the last event decides the requested next
/// state (game over ends the run, a restart request re-enters setup).
pub open spec fn game_event_post(pre: World, post: World) -> bool {
    &&& post.events@.len() == 0
    &&& if pre.events@.len() == 0 {
        post == pre
    } else {
        &&& post.time_paused == (pre.time_paused || exists|j: int|
            0 <= j < pre.events@.len() && pre.events@[j] == GameEvent::GameOver)
        &&& post.next_state == Some(
            match pre.events@.last() {
                GameEvent::GameOver => GameState::Over,
                GameEvent::Start => GameState::Startup,
            },
        )
        &&& post == (World {
            events: post.events,
            time_paused: post.time_paused,
            next_state: post.next_state,
            ..pre
        })
    }
}

/// The event loop's intermediate claim after `i` drained events.
pub open spec fn game_event_loop_inv(pre: World, cur: World, i: int) -> bool {
    &&& cur.events@ == pre.events@
    &&& i == 0 ==> cur.time_paused == pre.time_paused && cur.next_state == pre.next_state
    &&& i > 0 ==> cur.time_paused == (pre.time_paused || exists|j: int|
        0 <= j < i && pre.events@[j] == GameEvent::GameOver)
    &&& i > 0 ==> cur.next_state == Some(
        match pre.events@[i - 1] {
            GameEvent::GameOver => GameState::Over,
            GameEvent::Start => GameState::Startup,
        },
    )
    &&& cur == (World {
        events: cur.events,
        time_paused: cur.time_paused,
        next_state: cur.next_state,
        ..pre
    })
}

/// Drain the run-level events: a game-over freezes simulation time and
/// requests the Over state; a restart requests Startup.
pub fn game_event_system(w: &mut World)
    requires
        old(w).wf(),
    ensures
        final(w).wf(),
        game_event_post(*old(w), *final(w)),
{
    let n: usize = w.events.len();
    if n == 0 {
        return ;
    }
    let mut i: usize = 0;
    while i < n
        invariant
            old(w).wf(),
            n == old(w).events@.len(),
            0 <= i <= n,
            game_event_loop_inv(*old(w), *w, i as int),
        decreases n - i,
    {
        let ev: GameEvent = w.events[i];
        match ev {
            GameEvent::GameOver => {
                w.time_paused = true;
                w.next_state = Some(GameState::Over);
                proof {
                    assert(old(w).events@[i as int] == GameEvent::GameOver);
                }
            },
            GameEvent::Start => {
                w.next_state = Some(GameState::Startup);
            },
        }
        i = i + 1;
    }
    w.events.clear();
}


/// An effect entity after its lifetime timer absorbs one frame.
pub open spec fn ticked_effect_s(e: EffectState, dt_ms: int) -> EffectState {
    match e.temporary {
        Some(t) => EffectState {
            temporary: Some(Temporary { timer: t.timer.tick_s(dt_ms) }),
            ..e
        },
        None => e,
    }
}

/// Whether an effect entity survives the frame: an untimed effect always,
/// a timed one while its timer has not run out.
pub open spec fn effect_alive_s(e: EffectState) -> bool {
    match e.temporary {
        Some(t) => !t.timer.finished_s(),
        None => true,
    }
}

/// What the expiry system leaves behind: every lifetime ticked by this
/// frame's delta, and the effects whose timers ran out removed before they
/// can act again.
pub open spec fn temporary_post(pre: World, post: World, dt_ms: int) -> bool {
    &&& post.effects@ == pre.effects@.map_values(
        |e: EffectState| ticked_effect_s(e, dt_ms),
    ).filter(|e: EffectState| effect_alive_s(e))
    &&& post == (World { effects: post.effects, ..pre })
}

/// Tick every timed effect's lifetime and despawn the expired ones.
pub fn temporary_despawn_system(w: &mut World, dt_ms: u64)
    requires
        old(w).wf(),
        dt_ms <= TICK_LIMIT,
    ensures
        final(w).wf(),
        temporary_post(*old(w), *final(w), dt_ms as int),
{
    let n: usize = w.effects.len();
    let mut kept: Vec<EffectState> = Vec::new();
    let mut i: usize = 0;
    while i < n
        invariant
            old(w).wf(),
            n == old(w).effects@.len(),
            0 <= i <= n,
            *w == *old(w),
            dt_ms <= TICK_LIMIT,
            kept@ == old(w).effects@.take(i as int).map_values(
                |e: EffectState| ticked_effect_s(e, dt_ms as int),
            ).filter(|e: EffectState| effect_alive_s(e)),
            forall|k: int| 0 <= k < kept@.len() ==> (#[trigger] kept@[k]).inv(),
        decreases n - i,
    {
        let e: EffectState = w.effects[i];
        assert(old(w).effects@[i as int].inv());
        let ticked: EffectState = match e.temporary {
            Some(t) => {
                let mut tm: Timer = t.timer;
                tm.tick(dt_ms);
                EffectState { temporary: Some(Temporary { timer: tm }), ..e }
            },
            None => e,
        };
        let alive: bool = match &ticked.temporary {
            Some(t) => !t.timer.finished(),
            None => true,
        };
        proof {
            let f = |e2: EffectState| ticked_effect_s(e2, dt_ms as int);
            let prev = old(w).effects@.take(i as int).map_values(f);
            let curr = old(w).effects@.take(i + 1 as int).map_values(f);
            assert(curr =~= prev.push(ticked));
            assert(curr.drop_last() =~= prev);
            reveal(Seq::filter);
        }
        if alive {
            kept.push(ticked);
        }
        i = i + 1;
    }
    proof {
        assert(old(w).effects@.take(n as int) =~= old(w).effects@);
    }
    w.effects = kept;
}

/// The player transform after the bust effects up to the end of the list,
/// starting from index `i`, have each multiplied the scale once.
pub open spec fn busts_from_s(
    effects: Seq<EffectState>,
    pid: EntityId,
    dt: int,
    t: Transform2,
    i: int,
) -> Transform2
    decreases effects.len() - i,
{
    if i < 0 || i >= effects.len() {
        t
    } else {
        let t2 = match effects[i].data {
            EffectData::Bust(b) => if b.target == pid {
                Transform2 { pos: t.pos, scale: scale_apply_s(b.speed as int, dt, t.scale) }
            } else {
                t
            },
            _ => t,
        };
        busts_from_s(effects, pid, dt, t2, i + 1)
    }
}

/// What the bust system leaves behind: each live bust effect aimed at the
/// player has multiplied the player's scale once, in order; a bust whose
/// target no longer exists is skipped without fault.
pub open spec fn bust_post(pre: World, post: World, dt: int) -> bool {
    match pre.player {
        None => post == pre,
        Some(p) => post == (World {
            player: Some(
                PlayerState {
                    transform: busts_from_s(pre.effects@, p.id, dt, p.transform, 0),
                    ..p
                },
            ),
            ..pre
        }),
    }
}

/// Apply every live bust effect to its target's transform.
pub fn bust_effect_system(w: &mut World, dt: i64)
    requires
        old(w).wf(),
        0 <= dt <= DT_LIMIT,
    ensures
        final(w).wf(),
        bust_post(*old(w), *final(w), dt as int),
{
    if let Some(p) = w.player {
        let n: usize = w.effects.len();
        let mut t: Transform2 = p.transform;
        let mut i: usize = 0;
        while i < n
            invariant
                old(w).wf(),
                old(w).player == Some(p),
                n == old(w).effects@.len(),
                0 <= i <= n,
                *w == *old(w),
                0 <= dt <= DT_LIMIT,
                t.pos == p.transform.pos,
                scale_in_bounds(t.scale),
                busts_from_s(old(w).effects@, p.id, dt as int, t, i as int) == busts_from_s(
                    old(w).effects@,
                    p.id,
                    dt as int,
                    p.transform,
                    0,
                ),
            decreases n - i,
        {
            let e: EffectState = w.effects[i];
            assert(old(w).effects@[i as int].inv());
            if let EffectData::Bust(b) = e.data {
                if b.target == p.id {
                    b.apply(dt, &mut t);
                }
            }
            i = i + 1;
        }
        w.player = Some(PlayerState { transform: t, ..p });
    }
}


/// Scan a list of identities.
pub fn id_list_contains(v: &Vec<u64>, t: u64) -> (r: bool)
    ensures
        r == v@.contains(t),
{
    let mut i: usize = 0;
    while i < v.len()
        invariant
            0 <= i <= v@.len(),
            forall|j: int| 0 <= j < i ==> v@[j] != t,
        decreases v@.len() - i,
    {
        if v[i] == t {
            assert(v@[i as int] == t);
            return true;
        }
        i = i + 1;
    }
    false
}

/// Whether the culling step removes this hazard: off screen and in the
/// viewpoint's rear half-plane.
pub open spec fn culled_s(o: ObstacleState, cam: CameraState) -> bool {
    !o.visible && behind_s(o.transform.pos, cam.transform.pos, cam.velocity)
}

/// Whether the player is left behind this frame: off screen and in the
/// rear half-plane.
pub open spec fn player_culled_s(pre: World, cam: CameraState) -> bool {
    match pre.player {
        Some(p) => !p.visible && behind_s(p.transform.pos, cam.transform.pos, cam.velocity),
        None => false,
    }
}

/// Whether this effect's target is one of the hazards the culling step
/// removes (such effects go with their targets, so no dangling reference
/// survives the cull).
pub open spec fn effect_target_culled_s(
    obs: Seq<ObstacleState>,
    cam: CameraState,
    e: EffectState,
) -> bool {
    exists|j: int|
        0 <= j < obs.len() && culled_s(#[trigger] obs[j], cam) && obs[j].id == e.data.target_s()
}

/// What the culling step leaves behind: hazards left behind the viewpoint
/// despawned together with the effects that referenced them, and exactly
/// one game-over event appended when the player itself was left behind.
pub open spec fn cull_post(pre: World, post: World) -> bool {
    match pre.camera {
        None => post == pre,
        Some(cam) => {
            &&& post.obstacles@ == pre.obstacles@.filter(
                |o: ObstacleState| !culled_s(o, cam),
            )
            &&& post.effects@ == pre.effects@.filter(
                |e: EffectState| !effect_target_culled_s(pre.obstacles@, cam, e),
            )
            &&& post.events@ == if player_culled_s(pre, cam) {
                pre.events@.push(GameEvent::GameOver)
            } else {
                pre.events@
            }
            &&& post == (World {
                obstacles: post.obstacles,
                effects: post.effects,
                events: post.events,
                ..pre
            })
        },
    }
}

/// Despawn every off-screen entity that fell behind the advancing
/// viewpoint; a left-behind player ends the run instead. With no viewpoint
/// this frame, nothing is culled.
pub fn despawn_out_of_view(w: &mut World)
    requires
        old(w).wf(),
    ensures
        final(w).wf(),
        cull_post(*old(w), *final(w)),
{
    broadcast use vstd::seq_lib::lemma_seq_contains_after_push;

    let cam: CameraState = match w.camera {
        Some(c) => c,
        None => {
            return ;
        },
    };
    let n: usize = w.obstacles.len();
    let mut kept: Vec<ObstacleState> = Vec::new();
    let mut removed_ids: Vec<u64> = Vec::new();
    let mut i: usize = 0;
    while i < n
        invariant
            old(w).wf(),
            old(w).camera == Some(cam),
            n == old(w).obstacles@.len(),
            0 <= i <= n,
            *w == *old(w),
            kept@ == old(w).obstacles@.take(i as int).filter(
                |o: ObstacleState| !culled_s(o, cam),
            ),
            forall|k: int| 0 <= k < kept@.len() ==> (#[trigger] kept@[k]).inv(),
            forall|t: u64|
                #[trigger] removed_ids@.contains(t) <==> exists|j: int|
                    0 <= j < i && culled_s(#[trigger] old(w).obstacles@[j], cam) && old(
                        w,
                    ).obstacles@[j].id == t,
        decreases n - i,
    {
        let o: ObstacleState = w.obstacles[i];
        assert(old(w).obstacles@[i as int].inv());
        let gone: bool = !o.visible && behind(o.transform.pos, cam.transform.pos, cam.velocity);
        proof {
            let prev = old(w).obstacles@.take(i as int);
            let curr = old(w).obstacles@.take(i + 1 as int);
            assert(curr.drop_last() =~= prev);
            reveal(Seq::filter);
        }
        let ghost prev_ids = removed_ids@;
        if gone {
            removed_ids.push(o.id);
        } else {
            kept.push(o);
        }
        proof {
            assert forall|t: u64| #[trigger] removed_ids@.contains(t) implies (exists|j: int|
                0 <= j < i + 1 && culled_s(#[trigger] old(w).obstacles@[j], cam) && old(
                    w,
                ).obstacles@[j].id == t) by {
                vstd::seq_lib::lemma_seq_contains_after_push(prev_ids, o.id, t);
                if prev_ids.contains(t) {
                    let j = choose|j: int|
                        0 <= j < i && culled_s(#[trigger] old(w).obstacles@[j], cam) && old(
                            w,
                        ).obstacles@[j].id == t;
                    assert(0 <= j < i + 1 && culled_s(old(w).obstacles@[j], cam) && old(
                        w,
                    ).obstacles@[j].id == t);
                } else {
                    assert(gone && t == o.id);
                    assert(culled_s(old(w).obstacles@[i as int], cam));
                }
            };
            assert forall|t: u64| (exists|j: int|
                0 <= j < i + 1 && culled_s(#[trigger] old(w).obstacles@[j], cam) && old(
                    w,
                ).obstacles@[j].id == t) implies #[trigger] removed_ids@.contains(t) by {
                let j = choose|j: int|
                    0 <= j < i + 1 && culled_s(#[trigger] old(w).obstacles@[j], cam) && old(
                        w,
                    ).obstacles@[j].id == t;
                vstd::seq_lib::lemma_seq_contains_after_push(prev_ids, o.id, t);
                if j < i {
                    assert(prev_ids.contains(t));
                    if gone {
                        assert(removed_ids@ == prev_ids.push(o.id));
                    }
                } else {
                    assert(gone);
                    assert(removed_ids@ == prev_ids.push(o.id));
                    assert(o.id == t);
                }
            };
        }
        i = i + 1;
    }
    proof {
        assert(old(w).obstacles@.take(n as int) =~= old(w).obstacles@);
    }
    let player_gone: bool = match w.player {
        Some(p) => !p.visible && behind(p.transform.pos, cam.transform.pos, cam.velocity),
        None => false,
    };
    if player_gone {
        w.events.push(GameEvent::GameOver);
    }
    w.obstacles = kept;
    let m: usize = w.effects.len();
    let mut ekept: Vec<EffectState> = Vec::new();
    let mut k: usize = 0;
    while k < m
        invariant
            old(w).wf(),
            old(w).camera == Some(cam),
            m == old(w).effects@.len(),
            0 <= k <= m,
            w.effects@ == old(w).effects@,
            forall|t: u64|
                #[trigger] removed_ids@.contains(t) <==> exists|j: int|
                    0 <= j < old(w).obstacles@.len() && culled_s(
                        #[trigger] old(w).obstacles@[j],
                        cam,
                    ) && old(w).obstacles@[j].id == t,
            ekept@ == old(w).effects@.take(k as int).filter(
                |e: EffectState| !effect_target_culled_s(old(w).obstacles@, cam, e),
            ),
            forall|q: int| 0 <= q < ekept@.len() ==> (#[trigger] ekept@[q]).inv(),
        decreases m - k,
    {
        let e: EffectState = w.effects[k];
        assert(old(w).effects@[k as int].inv());
        let target: u64 = match &e.data {
            EffectData::Bust(b) => b.target,
            EffectData::Frozen(f) => f.target,
            EffectData::Destroying(d) => d.target,
        };
        let orphaned: bool = id_list_contains(&removed_ids, target);
        proof {
            assert(orphaned == effect_target_culled_s(old(w).obstacles@, cam, e));
            let prev = old(w).effects@.take(k as int);
            let curr = old(w).effects@.take(k + 1 as int);
            assert(curr.drop_last() =~= prev);
            reveal(Seq::filter);
        }
        if !orphaned {
            ekept.push(e);
        }
        k = k + 1;
    }
    proof {
        assert(old(w).effects@.take(m as int) =~= old(w).effects@);
    }
    w.effects = ekept;
}


/// Remove the entity `id` from the hazards, and with it every effect that
/// referenced it.
fn despawn_entity(obstacles: &mut Vec<ObstacleState>, effects: &mut Vec<EffectState>, id: u64)
    ensures
        final(obstacles)@ == old(obstacles)@.filter(|x: ObstacleState| x.id != id),
        final(effects)@ == old(effects)@.filter(|e: EffectState| e.data.target_s() != id),
        (forall|k: int| 0 <= k < old(obstacles)@.len() ==> (#[trigger] old(obstacles)@[k]).inv())
            ==> (forall|k: int|
            0 <= k < final(obstacles)@.len() ==> (#[trigger] final(obstacles)@[k]).inv()),
        (forall|k: int| 0 <= k < old(effects)@.len() ==> (#[trigger] old(effects)@[k]).inv())
            ==> (forall|k: int|
            0 <= k < final(effects)@.len() ==> (#[trigger] final(effects)@[k]).inv()),
{
    let n: usize = obstacles.len();
    let mut kept: Vec<ObstacleState> = Vec::new();
    let mut i: usize = 0;
    while i < n
        invariant
            n == old(obstacles)@.len(),
            0 <= i <= n,
            obstacles@ == old(obstacles)@,
            kept@ == old(obstacles)@.take(i as int).filter(|x: ObstacleState| x.id != id),
            forall|k: int|
                0 <= k < kept@.len() ==> exists|q: int|
                    0 <= q < n && #[trigger] kept@[k] == old(obstacles)@[q],
        decreases n - i,
    {
        let o: ObstacleState = obstacles[i];
        proof {
            let prev = old(obstacles)@.take(i as int);
            let curr = old(obstacles)@.take(i + 1 as int);
            assert(curr.drop_last() =~= prev);
            reveal(Seq::filter);
        }
        if o.id != id {
            kept.push(o);
            assert(kept@.last() == old(obstacles)@[i as int]);
        }
        i = i + 1;
    }
    proof {
        assert(old(obstacles)@.take(n as int) =~= old(obstacles)@);
    }
    *obstacles = kept;
    let m: usize = effects.len();
    let mut ekept: Vec<EffectState> = Vec::new();
    let mut k: usize = 0;
    while k < m
        invariant
            m == old(effects)@.len(),
            0 <= k <= m,
            effects@ == old(effects)@,
            ekept@ == old(effects)@.take(k as int).filter(
                |e: EffectState| e.data.target_s() != id,
            ),
            forall|q: int|
                0 <= q < ekept@.len() ==> exists|r: int|
                    0 <= r < m && #[trigger] ekept@[q] == old(effects)@[r],
        decreases m - k,
    {
        let e: EffectState = effects[k];
        let target: u64 = match &e.data {
            EffectData::Bust(b) => b.target,
            EffectData::Frozen(f) => f.target,
            EffectData::Destroying(d) => d.target,
        };
        proof {
            let prev = old(effects)@.take(k as int);
            let curr = old(effects)@.take(k + 1 as int);
            assert(curr.drop_last() =~= prev);
            reveal(Seq::filter);
        }
        if target != id {
            ekept.push(e);
            assert(ekept@.last() == old(effects)@[k as int]);
        }
        k = k + 1;
    }
    proof {
        assert(old(effects)@.take(m as int) =~= old(effects)@);
    }
    *effects = ekept;
}

/// First index of the hazard with identity `id`, from `i` on; `-1` when
/// there is none.
pub open spec fn find_obstacle_s(obs: Seq<ObstacleState>, id: u64, i: int) -> int
    decreases obs.len() - i,
{
    if i < 0 || i >= obs.len() {
        -1
    } else if obs[i].id == id {
        i
    } else {
        find_obstacle_s(obs, id, i + 1)
    }
}

/// Find the first hazard with identity `id`.
fn find_obstacle(obs: &Vec<ObstacleState>, id: u64) -> (r: Option<usize>)
    ensures
        (match r {
            Some(ix) => 0 <= ix < obs@.len() && find_obstacle_s(obs@, id, 0) == ix,
            None => find_obstacle_s(obs@, id, 0) == -1,
        }),
{
    let n: usize = obs.len();
    let mut i: usize = 0;
    while i < n
        invariant
            n == obs@.len(),
            0 <= i <= n,
            find_obstacle_s(obs@, id, 0) == find_obstacle_s(obs@, id, i as int),
        decreases n - i,
    {
        if obs[i].id == id {
            return Some(i);
        }
        i = i + 1;
    }
    None
}

/// The collision bookkeeping one contact changes: the hazards, the
/// effects, the run events, the fresh-identity counter and the player's
/// velocity.
pub open spec fn hit_step_s(
    p: PlayerState,
    st: (Seq<ObstacleState>, Seq<EffectState>, Seq<GameEvent>, u64, Vec2Fx),
    c: Contact,
) -> (Seq<ObstacleState>, Seq<EffectState>, Seq<GameEvent>, u64, Vec2Fx) {
    let oi = find_obstacle_s(st.0, c.obstacle, 0);
    if oi < 0 {
        st
    } else {
        let o = st.0[oi];
        let outcome = resolve_hit_s(
            p.transform.scale.x as int,
            o.transform.scale.x as int,
            c.penetration as int,
        );
        if outcome == HitOutcome::Absorb {
            let obs2 = st.0.filter(|x: ObstacleState| x.id != c.obstacle);
            let effs1 = st.1.filter(|e: EffectState| e.data.target_s() != c.obstacle);
            match o.obstacle.create_effect_s(p.id, p.scale.speed as int) {
                None => (obs2, effs1, st.2, st.3, st.4),
                Some(cmd) => match cmd {
                    EffectCommand::SpawnBust { bust, temporary } => (
                        obs2,
                        effs1.push(
                            EffectState {
                                id: st.3,
                                data: EffectData::Bust(bust),
                                temporary: Some(temporary),
                            },
                        ),
                        st.2,
                        (st.3 + 1) as u64,
                        st.4,
                    ),
                    EffectCommand::SpawnFrozen { frozen, temporary } => (
                        obs2,
                        effs1.push(
                            EffectState {
                                id: st.3,
                                data: EffectData::Frozen(frozen),
                                temporary: Some(temporary),
                            },
                        ),
                        st.2,
                        (st.3 + 1) as u64,
                        Vec2Fx { x: 0i64, y: 0i64 },
                    ),
                    EffectCommand::SpawnDestroy { destroy } => (
                        obs2,
                        effs1.push(
                            EffectState {
                                id: st.3,
                                data: EffectData::Destroying(destroy),
                                temporary: None,
                            },
                        ),
                        st.2,
                        (st.3 + 1) as u64,
                        st.4,
                    ),
                },
            }
        } else if outcome == HitOutcome::PlayerDestroyed {
            (st.0, st.1, st.2.push(GameEvent::GameOver), st.3, st.4)
        } else {
            st
        }
    }
}

/// The collision bookkeeping of the contacts from index `i` on.
pub open spec fn hits_from_s(
    p: PlayerState,
    cs: Seq<Contact>,
    st: (Seq<ObstacleState>, Seq<EffectState>, Seq<GameEvent>, u64, Vec2Fx),
    i: int,
) -> (Seq<ObstacleState>, Seq<EffectState>, Seq<GameEvent>, u64, Vec2Fx)
    decreases cs.len() - i,
{
    if i < 0 || i >= cs.len() {
        st
    } else {
        hits_from_s(p, cs, hit_step_s(p, st, cs[i]), i + 1)
    }
}

/// What the collision system leaves behind: each reported contact resolved
/// in order — an absorbed hazard despawned (its effect attached to the
/// player, a freeze also stopping it), a dominant hazard emitting game
/// over, a graze changing nothing. A missing player or a stale contact is
/// a no-op.
pub open spec fn hit_post(pre: World, post: World, cs: Seq<Contact>) -> bool {
    match pre.player {
        None => post == pre,
        Some(p) => {
            let st = hits_from_s(
                p,
                cs,
                (pre.obstacles@, pre.effects@, pre.events@, pre.next_id, p.velocity),
                0,
            );
            &&& post.obstacles@ == st.0
            &&& post.effects@ == st.1
            &&& post.events@ == st.2
            &&& post.next_id == st.3
            &&& post.player == Some(PlayerState { velocity: st.4, ..p })
            &&& post == (World {
                obstacles: post.obstacles,
                effects: post.effects,
                events: post.events,
                next_id: post.next_id,
                player: post.player,
                ..pre
            })
        },
    }
}

/// Resolve this frame's player–hazard contacts, in the order the physics
/// engine reported them.
pub fn hit_obstacle_system(w: &mut World, contacts: &Vec<Contact>)
    requires
        old(w).wf(),
        old(w).next_id + contacts@.len() <= u64::MAX,
    ensures
        final(w).wf(),
        hit_post(*old(w), *final(w), contacts@),
{
    let p: PlayerState = match w.player {
        Some(p) => p,
        None => {
            return ;
        },
    };
    let mut pvel: Vec2Fx = p.velocity;
    let n: usize = contacts.len();
    let mut i: usize = 0;
    while i < n
        invariant
            old(w).wf(),
            old(w).player == Some(p),
            n == contacts@.len(),
            0 <= i <= n,
            old(w).next_id + n <= u64::MAX,
            w.next_id - old(w).next_id <= i,
            w.next_id >= old(w).next_id,
            hits_from_s(
                p,
                contacts@,
                (w.obstacles@, w.effects@, w.events@, w.next_id, pvel),
                i as int,
            ) == hits_from_s(
                p,
                contacts@,
                (old(w).obstacles@, old(w).effects@, old(w).events@, old(w).next_id, p.velocity),
                0,
            ),
            forall|k: int| 0 <= k < w.obstacles@.len() ==> (#[trigger] w.obstacles@[k]).inv(),
            forall|k: int| 0 <= k < w.effects@.len() ==> (#[trigger] w.effects@[k]).inv(),
            *w == (World {
                obstacles: w.obstacles,
                effects: w.effects,
                events: w.events,
                next_id: w.next_id,
                ..*old(w)
            }),
        decreases n - i,
    {
        let ghost st_before = (w.obstacles@, w.effects@, w.events@, w.next_id, pvel);
        let c: Contact = contacts[i];
        let found: Option<usize> = find_obstacle(&w.obstacles, c.obstacle);
        match found {
            None => {},
            Some(ix) => {
                let o: ObstacleState = w.obstacles[ix];
                assert(o.inv());
                let outcome: HitOutcome = resolve_hit(
                    p.transform.scale.x,
                    o.transform.scale.x,
                    c.penetration,
                );
                match outcome {
                    HitOutcome::Absorb => {
                        let cmd = o.obstacle.create_effect(p.id, &p.scale);
                        despawn_entity(&mut w.obstacles, &mut w.effects, c.obstacle);
                        match cmd {
                            None => {},
                            Some(EffectCommand::SpawnBust { bust, temporary }) => {
                                let id: u64 = w.next_id;
                                w.next_id = w.next_id + 1;
                                w.effects.push(
                                    EffectState {
                                        id,
                                        data: EffectData::Bust(bust),
                                        temporary: Some(temporary),
                                    },
                                );
                            },
                            Some(EffectCommand::SpawnFrozen { frozen, temporary }) => {
                                let id: u64 = w.next_id;
                                w.next_id = w.next_id + 1;
                                w.effects.push(
                                    EffectState {
                                        id,
                                        data: EffectData::Frozen(frozen),
                                        temporary: Some(temporary),
                                    },
                                );
                                pvel = Vec2Fx { x: 0, y: 0 };
                            },
                            Some(EffectCommand::SpawnDestroy { destroy }) => {
                                let id: u64 = w.next_id;
                                w.next_id = w.next_id + 1;
                                w.effects.push(
                                    EffectState {
                                        id,
                                        data: EffectData::Destroying(destroy),
                                        temporary: None,
                                    },
                                );
                            },
                        }
                    },
                    HitOutcome::PlayerDestroyed => {
                        w.events.push(GameEvent::GameOver);
                    },
                    HitOutcome::Graze => {},
                }
            },
        }
        proof {
            assert((w.obstacles@, w.effects@, w.events@, w.next_id, pvel) == hit_step_s(
                p,
                st_before,
                c,
            ));
        }
        i = i + 1;
    }
    w.player = Some(PlayerState { velocity: pvel, ..p });
}


/// Remove the entity `id` from the hazards alone (the immediate,
/// non-recursive despawn the one-shot destruction performs).
fn remove_obstacle_only(obstacles: &mut Vec<ObstacleState>, id: u64)
    ensures
        final(obstacles)@ == old(obstacles)@.filter(|x: ObstacleState| x.id != id),
        (forall|k: int| 0 <= k < old(obstacles)@.len() ==> (#[trigger] old(obstacles)@[k]).inv())
            ==> (forall|k: int|
            0 <= k < final(obstacles)@.len() ==> (#[trigger] final(obstacles)@[k]).inv()),
{
    let n: usize = obstacles.len();
    let mut kept: Vec<ObstacleState> = Vec::new();
    let mut i: usize = 0;
    while i < n
        invariant
            n == old(obstacles)@.len(),
            0 <= i <= n,
            obstacles@ == old(obstacles)@,
            kept@ == old(obstacles)@.take(i as int).filter(|x: ObstacleState| x.id != id),
            forall|k: int|
                0 <= k < kept@.len() ==> exists|q: int|
                    0 <= q < n && #[trigger] kept@[k] == old(obstacles)@[q],
        decreases n - i,
    {
        let o: ObstacleState = obstacles[i];
        proof {
            let prev = old(obstacles)@.take(i as int);
            let curr = old(obstacles)@.take(i + 1 as int);
            assert(curr.drop_last() =~= prev);
            reveal(Seq::filter);
        }
        if o.id != id {
            kept.push(o);
            assert(kept@.last() == old(obstacles)@[i as int]);
        }
        i = i + 1;
    }
    proof {
        assert(old(obstacles)@.take(n as int) =~= old(obstacles)@);
    }
    *obstacles = kept;
}

/// The bookkeeping one effect entity contributes to the destruction step:
/// a pending destruction of the player emits game over, of anything else
/// despawns that hazard; other effects contribute nothing.
pub open spec fn destroy_step_s(
    pid: Option<u64>,
    st: (Seq<ObstacleState>, Seq<GameEvent>),
    e: EffectState,
) -> (Seq<ObstacleState>, Seq<GameEvent>) {
    match e.data {
        EffectData::Destroying(d) => if pid == Some(d.target) {
            (st.0, st.1.push(GameEvent::GameOver))
        } else {
            (st.0.filter(|x: ObstacleState| x.id != d.target), st.1)
        },
        _ => st,
    }
}

/// The destruction bookkeeping of the effects from index `i` on.
pub open spec fn destroys_from_s(
    pid: Option<u64>,
    effects: Seq<EffectState>,
    st: (Seq<ObstacleState>, Seq<GameEvent>),
    i: int,
) -> (Seq<ObstacleState>, Seq<GameEvent>)
    decreases effects.len() - i,
{
    if i < 0 || i >= effects.len() {
        st
    } else {
        destroys_from_s(pid, effects, destroy_step_s(pid, st, effects[i]), i + 1)
    }
}

/// What the destruction step leaves behind: every pending destruction
/// performed in order — game over for the player, an immediate despawn for
/// anything else, a no-op for a target already gone — and the one-shot
/// destruction entities themselves despawned the same frame.
pub open spec fn destroy_post(pre: World, post: World) -> bool {
    let pid = match pre.player {
        Some(p) => Some(p.id),
        None => None,
    };
    let st = destroys_from_s(pid, pre.effects@, (pre.obstacles@, pre.events@), 0);
    &&& post.obstacles@ == st.0
    &&& post.events@ == st.1
    &&& post.effects@ == pre.effects@.filter(
        |e: EffectState| !(e.data is Destroying),
    )
    &&& post == (World {
        obstacles: post.obstacles,
        events: post.events,
        effects: post.effects,
        ..pre
    })
}

/// Carry out every pending one-shot destruction, then despawn the
/// destruction entities themselves.
pub fn destroy_system(w: &mut World)
    requires
        old(w).wf(),
    ensures
        final(w).wf(),
        destroy_post(*old(w), *final(w)),
{
    let pid: Option<u64> = match w.player {
        Some(p) => Some(p.id),
        None => None,
    };
    let m: usize = w.effects.len();
    let mut i: usize = 0;
    while i < m
        invariant
            old(w).wf(),
            pid == (match old(w).player {
                Some(p) => Some(p.id),
                None => None,
            }),
            m == old(w).effects@.len(),
            0 <= i <= m,
            w.effects@ == old(w).effects@,
            destroys_from_s(pid, old(w).effects@, (w.obstacles@, w.events@), i as int)
                == destroys_from_s(
                pid,
                old(w).effects@,
                (old(w).obstacles@, old(w).events@),
                0,
            ),
            forall|k: int| 0 <= k < w.obstacles@.len() ==> (#[trigger] w.obstacles@[k]).inv(),
            *w == (World { obstacles: w.obstacles, events: w.events, ..*old(w) }),
        decreases m - i,
    {
        let ghost st_before = (w.obstacles@, w.events@);
        let e: EffectState = w.effects[i];
        match &e.data {
            EffectData::Destroying(d) => {
                let is_player: bool = match pid {
                    Some(pp) => pp == d.target,
                    None => false,
                };
                if is_player {
                    w.events.push(GameEvent::GameOver);
                } else {
                    remove_obstacle_only(&mut w.obstacles, d.target);
                }
            },
            _ => {},
        }
        proof {
            assert((w.obstacles@, w.events@) == destroy_step_s(
                pid,
                st_before,
                old(w).effects@[i as int],
            ));
        }
        i = i + 1;
    }
    let mut kept: Vec<EffectState> = Vec::new();
    let mut k: usize = 0;
    while k < m
        invariant
            old(w).wf(),
            m == old(w).effects@.len(),
            0 <= k <= m,
            w.effects@ == old(w).effects@,
            kept@ == old(w).effects@.take(k as int).filter(
                |e: EffectState| !(e.data is Destroying),
            ),
            forall|q: int| 0 <= q < kept@.len() ==> (#[trigger] kept@[q]).inv(),
            destroys_from_s(pid, old(w).effects@, (w.obstacles@, w.events@), m as int)
                == destroys_from_s(
                pid,
                old(w).effects@,
                (old(w).obstacles@, old(w).events@),
                0,
            ),
            *w == (World { obstacles: w.obstacles, events: w.events, ..*old(w) }),
        decreases m - k,
    {
        let e: EffectState = w.effects[k];
        assert(old(w).effects@[k as int].inv());
        let keep: bool = match &e.data {
            EffectData::Destroying(_) => false,
            _ => true,
        };
        proof {
            let prev = old(w).effects@.take(k as int);
            let curr = old(w).effects@.take(k + 1 as int);
            assert(curr.drop_last() =~= prev);
            reveal(Seq::filter);
        }
        if keep {
            kept.push(e);
        }
        k = k + 1;
    }
    proof {
        assert(old(w).effects@.take(m as int) =~= old(w).effects@);
    }
    w.effects = kept;
}


/// Whether this frame's input resumes a paused run.
pub open spec fn unpauses_s(pre: World, input: ActionState) -> bool {
    pre.player is Some && input.just_pressed_pause && pre.time_paused
}

/// Whether this frame's input restarts an ended run.
pub open spec fn restarts_s(pre: World, input: ActionState) -> bool {
    pre.player is Some && input.just_released_start
}

/// What one frame guarantees of the run state machine. The requested next
/// state is applied, and consumed, at the frame's single designated point,
/// never mid-update. While the run is suspended (paused, or ended and not
/// yet restarted) no gameplay entity moves: only the state machinery and
/// the event queue may change. Setup enters play, the pause input resumes
/// it, and the restart input tears the world down and re-enters setup.
pub open spec fn frame_post(pre: World, post: World, input: ActionState, dt_ms: int) -> bool {
    &&& post.next_state is None
    &&& post.events@.len() == 0
    &&& (pre.state == GameState::Pause || pre.state == GameState::Over && !restarts_s(
        pre,
        input,
    )) ==> {
        &&& post.obstacles@ == pre.obstacles@
        &&& post.effects@ == pre.effects@
        &&& post.player == pre.player
        &&& post.factory == pre.factory
        &&& post.score == pre.score
        &&& post.spawn_events@ == pre.spawn_events@
        &&& post.next_id == pre.next_id
    }
    &&& pre.state == GameState::Startup && pre.events@.len() == 0 ==> {
        &&& post.state == GameState::Running
        &&& post.player is Some
        &&& post.factory is Some
        &&& post.score is Some
        &&& !post.time_paused
    }
    &&& pre.state == GameState::Pause && pre.events@.len() == 0 && pre.next_state is None
        ==> post.state == (
    if unpauses_s(pre, input) {
        GameState::Running
    } else {
        GameState::Pause
    })
    &&& pre.state == GameState::Pause && pre.events@.len() == 0 && unpauses_s(pre, input)
        ==> !post.time_paused
    &&& pre.state == GameState::Over && restarts_s(pre, input) ==> {
        &&& post.state == GameState::Startup
        &&& post.player is None
        &&& post.obstacles@.len() == 0
        &&& post.effects@.len() == 0
    }
    &&& pre.state == GameState::Over && !restarts_s(pre, input) && pre.events@.len() == 0
        && pre.next_state is None ==> post.state == GameState::Over
    &&& pre.state == GameState::Running && pre.score is Some ==> post.score == Some(
        TimeScore {
            elapsed_ms: if pre.score->0.elapsed_ms + dt_ms <= u64::MAX {
                (pre.score->0.elapsed_ms + dt_ms) as u64
            } else {
                u64::MAX
            },
        },
    )
}

/// Run one simulated frame: the systems of the current run state in the
/// observable order (factory, then movement and behaviour, then collision
/// and culling against this frame's reported contacts, then effects, then
/// scorekeeping), drain the run events, and apply the deferred state
/// transition at the end of the frame.
pub fn run_frame(w: &mut World, input: &ActionState, contacts: &Vec<Contact>, dt_ms: u64)
    requires
        old(w).wf(),
        dt_ms <= 1000000,
        abs_of(input.move_x as int) <= 1000,
        abs_of(input.move_y as int) <= 1000,
        old(w).next_id + old(w).spawn_events@.len() + contacts@.len() + 4 <= u64::MAX,
    ensures
        final(w).wf(),
        frame_post(*old(w), *final(w), *input, dt_ms as int),
{
    let dt: i64 = dt_ms as i64;
    match w.state {
        GameState::Startup => {
            spawn_world(w);
            spawn_player_system(w);
            reset_camera_system(w);
        },
        GameState::Running => {
            player_pause_system(w, input);
            obstacle_factory_system(w, dt_ms);
            spawn_obstacle_system(w);
            player_move_system(w, input);
            player_swap_scale_system(w, input);
            apply_scale_system(w, dt);
            enemy_system(w);
            hit_obstacle_system(w, contacts);
            despawn_out_of_view(w);
            bust_effect_system(w, dt);
            destroy_system(w);
            temporary_despawn_system(w, dt_ms);
            time_score_system(w, dt_ms);
        },
        GameState::Pause => {
            player_unpause_system(w, input);
        },
        GameState::Over => {
            player_restart_system(w, input);
        },
    }
    game_event_system(w);
    if let Some(next) = w.next_state {
        w.state = next;
        w.next_state = None;
    }
}

} // verus!
