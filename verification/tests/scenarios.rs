use scale_rush::collision::Contact;
use scale_rush::factory::SPAWNS_PER_INTERVAL;
use scale_rush::obstacle::{BustEffect, Destroy, FrozenEffect, Obstacle, ObstacleKind, Temporary};
use scale_rush::scale::Transform2;
use scale_rush::state::{ActionState, GameState};
use scale_rush::timer::Timer;
use scale_rush::vec2::Vec2Fx;
use scale_rush::world::{
    apply_scale_system, bust_effect_system, destroy_system, hit_obstacle_system,
    player_move_system, run_frame, spawn_camera_system, temporary_despawn_system, EffectData,
    EffectState, ObstacleState, World,
};

fn idle() -> ActionState {
    ActionState::idle()
}

fn no_contacts() -> Vec<Contact> {
    Vec::new()
}

fn booted(seed: u64) -> World {
    let mut w = World::new(seed);
    spawn_camera_system(&mut w);
    run_frame(&mut w, &idle(), &no_contacts(), 0);
    assert_eq!(w.state, GameState::Running);
    w
}

fn block_at(id: u64, pos: Vec2Fx, size: i64) -> ObstacleState {
    let bundle = ObstacleKind::Block.add_bundle();
    ObstacleState {
        id,
        obstacle: Obstacle { kind: ObstacleKind::Block },
        transform: Transform2 { pos, scale: Vec2Fx { x: size, y: size } },
        velocity: Vec2Fx { x: 0, y: 0 },
        body: bundle.body,
        solver_memberships: bundle.solver_memberships,
        radius: 32000,
        enemy: bundle.enemy,
        visible: true,
    }
}

fn hazard_at(kind: ObstacleKind, id: u64, pos: Vec2Fx, size: i64) -> ObstacleState {
    let bundle = kind.add_bundle();
    ObstacleState {
        id,
        obstacle: Obstacle { kind },
        transform: Transform2 { pos, scale: Vec2Fx { x: size, y: size } },
        velocity: Vec2Fx { x: 0, y: 0 },
        body: bundle.body,
        solver_memberships: bundle.solver_memberships,
        radius: 32000,
        enemy: bundle.enemy,
        visible: true,
    }
}

#[test]
fn startup_builds_the_world_and_enters_running() {
    let w = booted(7);
    let p = w.player.expect("player spawned");
    assert_eq!(p.transform.scale, Vec2Fx { x: 1000, y: 1000 });
    assert_eq!(p.scale.speed, 500);
    assert!(w.factory.is_some());
    assert_eq!(w.score.map(|s| s.elapsed_ms), Some(0));
    assert!(!w.time_paused);
    assert!(w.camera.is_some());
}

#[test]
fn one_second_emits_two_requests_in_the_forward_band() {
    let mut w = booted(7);
    run_frame(&mut w, &idle(), &no_contacts(), 1000);
    assert_eq!(w.obstacles.len(), SPAWNS_PER_INTERVAL as usize);
    for o in w.obstacles.iter() {
        assert!(matches!(
            o.obstacle.kind,
            ObstacleKind::ScaleBust(_) | ObstacleKind::Block | ObstacleKind::Ice
                | ObstacleKind::Poison
        ));
        assert_eq!(o.transform.pos.y, 604000);
        assert!(o.transform.pos.x.abs() <= 360000);
        assert_eq!(o.radius, 32000);
        assert!(o.transform.scale.x >= 750 && o.transform.scale.x <= 1250);
    }
    assert_eq!(w.score.map(|s| s.elapsed_ms), Some(1000));
}

#[test]
fn half_second_frames_spawn_once_per_interval() {
    let mut w = booted(9);
    run_frame(&mut w, &idle(), &no_contacts(), 500);
    assert_eq!(w.obstacles.len(), 0);
    run_frame(&mut w, &idle(), &no_contacts(), 500);
    assert_eq!(w.obstacles.len(), 2);
}

#[test]
fn big_player_absorbs_a_block_without_any_effect() {
    let mut w = booted(7);
    let mut p = w.player.unwrap();
    p.transform.scale = Vec2Fx { x: 3000, y: 3000 };
    w.player = Some(p);
    w.obstacles.push(block_at(100, Vec2Fx { x: 10000, y: 0 }, 1000));
    let contacts = vec![Contact { obstacle: 100, penetration: -70000 }];
    hit_obstacle_system(&mut w, &contacts);
    assert_eq!(w.obstacles.len(), 0);
    assert_eq!(w.effects.len(), 0);
    assert_eq!(w.events.len(), 0);
}

#[test]
fn shallow_contact_with_a_block_changes_nothing() {
    let mut w = booted(7);
    let mut p = w.player.unwrap();
    p.transform.scale = Vec2Fx { x: 3000, y: 3000 };
    w.player = Some(p);
    w.obstacles.push(block_at(100, Vec2Fx { x: 10000, y: 0 }, 1000));
    let contacts = vec![Contact { obstacle: 100, penetration: -100 }];
    hit_obstacle_system(&mut w, &contacts);
    assert_eq!(w.obstacles.len(), 1);
    assert_eq!(w.effects.len(), 0);
}

#[test]
fn dominant_hazard_destroys_the_player() {
    let mut w = booted(7);
    w.obstacles.push(block_at(100, Vec2Fx { x: 10000, y: 0 }, 4000));
    let contacts = vec![Contact { obstacle: 100, penetration: -70000 }];
    run_frame(&mut w, &idle(), &contacts, 16);
    assert_eq!(w.state, GameState::Over);
    assert!(w.time_paused);
}

#[test]
fn absorbed_ice_freezes_movement_and_growth_until_expiry() {
    let mut w = booted(7);
    let mut p = w.player.unwrap();
    p.transform.scale = Vec2Fx { x: 2000, y: 2000 };
    w.player = Some(p);
    let pid = p.id;
    w.obstacles.push(hazard_at(ObstacleKind::Ice, 100, Vec2Fx { x: 10000, y: 0 }, 1000));
    let contacts = vec![Contact { obstacle: 100, penetration: -64000 }];
    hit_obstacle_system(&mut w, &contacts);
    assert_eq!(w.obstacles.len(), 0);
    assert_eq!(w.effects.len(), 1);
    assert!(matches!(&w.effects[0].data, EffectData::Frozen(f) if f.target == pid));
    assert_eq!(w.player.unwrap().velocity, Vec2Fx { x: 0, y: 0 });

    let scale_before = w.player.unwrap().transform.scale;
    apply_scale_system(&mut w, 100);
    assert_eq!(w.player.unwrap().transform.scale, scale_before);
    let push = ActionState { move_x: 1000, move_y: 0, ..idle() };
    player_move_system(&mut w, &push);
    assert_eq!(w.player.unwrap().velocity, Vec2Fx { x: 0, y: 0 });

    temporary_despawn_system(&mut w, 500);
    assert_eq!(w.effects.len(), 0);
    player_move_system(&mut w, &push);
    assert!(w.player.unwrap().velocity.x > 0);
}

#[test]
fn absorbed_poison_marks_the_player_for_destruction() {
    let mut w = booted(7);
    let mut p = w.player.unwrap();
    p.transform.scale = Vec2Fx { x: 2000, y: 2000 };
    w.player = Some(p);
    w.obstacles.push(hazard_at(ObstacleKind::Poison, 100, Vec2Fx { x: 10000, y: 0 }, 1000));
    let contacts = vec![Contact { obstacle: 100, penetration: -64000 }];
    hit_obstacle_system(&mut w, &contacts);
    assert!(matches!(&w.effects[0].data, EffectData::Destroying(_)));
    destroy_system(&mut w);
    assert_eq!(w.events, vec![scale_rush::state::GameEvent::GameOver]);
    assert_eq!(w.effects.len(), 0);
}

#[test]
fn bust_effect_expires_after_half_a_second_of_deltas() {
    let mut w = booted(7);
    let pid = w.player.unwrap().id;
    w.effects.push(EffectState {
        id: 500,
        data: EffectData::Bust(BustEffect { target: pid, speed: 1000 }),
        temporary: Some(Temporary { timer: Timer::new_once(500) }),
    });
    bust_effect_system(&mut w, 200);
    assert_eq!(w.player.unwrap().transform.scale, Vec2Fx { x: 1200, y: 1200 });
    temporary_despawn_system(&mut w, 200);
    assert_eq!(w.effects.len(), 1);
    bust_effect_system(&mut w, 300);
    temporary_despawn_system(&mut w, 300);
    assert_eq!(w.effects.len(), 0);
    let scale_after = w.player.unwrap().transform.scale;
    bust_effect_system(&mut w, 1000);
    assert_eq!(w.player.unwrap().transform.scale, scale_after);
}

#[test]
fn dangling_effect_target_is_skipped_then_expires_on_schedule() {
    let mut w = booted(7);
    w.effects.push(EffectState {
        id: 500,
        data: EffectData::Bust(BustEffect { target: 424242, speed: 1000 }),
        temporary: Some(Temporary { timer: Timer::new_once(500) }),
    });
    let scale_before = w.player.unwrap().transform.scale;
    bust_effect_system(&mut w, 200);
    assert_eq!(w.player.unwrap().transform.scale, scale_before);
    temporary_despawn_system(&mut w, 200);
    assert_eq!(w.effects.len(), 1);
    temporary_despawn_system(&mut w, 300);
    assert_eq!(w.effects.len(), 0);
}

#[test]
fn destroying_a_missing_target_is_a_no_op() {
    let mut w = booted(7);
    w.effects.push(EffectState {
        id: 500,
        data: EffectData::Destroying(Destroy { target: 424242 }),
        temporary: None,
    });
    destroy_system(&mut w);
    assert_eq!(w.events.len(), 0);
    assert_eq!(w.effects.len(), 0);
}

#[test]
fn player_left_behind_ends_the_run_exactly_once() {
    let mut w = booted(7);
    let mut p = w.player.unwrap();
    p.transform.pos = Vec2Fx { x: 0, y: -100000 };
    p.visible = false;
    w.player = Some(p);
    run_frame(&mut w, &idle(), &no_contacts(), 16);
    assert_eq!(w.state, GameState::Over);
    assert!(w.time_paused);
    assert_eq!(w.events.len(), 0);
    let obstacles_before = w.obstacles.len();
    run_frame(&mut w, &idle(), &no_contacts(), 16);
    assert_eq!(w.state, GameState::Over);
    assert_eq!(w.obstacles.len(), obstacles_before);
}

#[test]
fn invisible_hazards_behind_the_viewpoint_are_culled_with_their_effects() {
    let mut w = booted(7);
    let mut gone = block_at(100, Vec2Fx { x: 0, y: -100000 }, 1000);
    gone.visible = false;
    w.obstacles.push(gone);
    let mut ahead = block_at(101, Vec2Fx { x: 0, y: 100000 }, 1000);
    ahead.visible = false;
    w.obstacles.push(ahead);
    let visible_behind = block_at(102, Vec2Fx { x: 0, y: -100000 }, 1000);
    w.obstacles.push(visible_behind);
    w.effects.push(EffectState {
        id: 500,
        data: EffectData::Frozen(FrozenEffect { target: 100 }),
        temporary: Some(Temporary { timer: Timer::new_once(500) }),
    });
    run_frame(&mut w, &idle(), &no_contacts(), 16);
    let ids: Vec<u64> = w.obstacles.iter().map(|o| o.id).collect();
    assert!(!ids.contains(&100));
    assert!(ids.contains(&101));
    assert!(ids.contains(&102));
    assert_eq!(w.effects.len(), 0);
    assert_eq!(w.state, GameState::Running);
}

#[test]
fn pause_suspends_gameplay_and_resumes() {
    let mut w = booted(7);
    let pause = ActionState { just_pressed_pause: true, ..idle() };
    run_frame(&mut w, &pause, &no_contacts(), 16);
    assert_eq!(w.state, GameState::Pause);
    assert!(w.time_paused);
    let obstacles_before = w.obstacles.len();
    let score_before = w.score;
    run_frame(&mut w, &idle(), &no_contacts(), 1000);
    assert_eq!(w.state, GameState::Pause);
    assert_eq!(w.obstacles.len(), obstacles_before);
    assert_eq!(w.score, score_before);
    run_frame(&mut w, &pause, &no_contacts(), 16);
    assert_eq!(w.state, GameState::Running);
    assert!(!w.time_paused);
}

#[test]
fn restart_after_game_over_rebuilds_the_world() {
    let mut w = booted(7);
    w.obstacles.push(block_at(100, Vec2Fx { x: 10000, y: 0 }, 4000));
    let contacts = vec![Contact { obstacle: 100, penetration: -70000 }];
    run_frame(&mut w, &idle(), &contacts, 16);
    assert_eq!(w.state, GameState::Over);
    let start = ActionState { just_released_start: true, ..idle() };
    run_frame(&mut w, &start, &no_contacts(), 16);
    assert_eq!(w.state, GameState::Startup);
    assert!(w.player.is_none());
    run_frame(&mut w, &idle(), &no_contacts(), 16);
    assert_eq!(w.state, GameState::Running);
    assert!(w.player.is_some());
    assert_eq!(w.score.map(|s| s.elapsed_ms), Some(0));
}

#[test]
fn swapping_scale_through_input_flips_the_rate() {
    let mut w = booted(7);
    let swap = ActionState { just_pressed_swap: true, ..idle() };
    run_frame(&mut w, &swap, &no_contacts(), 0);
    assert_eq!(w.player.unwrap().scale.speed, -500);
    run_frame(&mut w, &swap, &no_contacts(), 0);
    assert_eq!(w.player.unwrap().scale.speed, 500);
}

#[test]
fn moving_player_gets_a_normalized_velocity() {
    let mut w = booted(7);
    let push = ActionState { move_x: 0, move_y: 1000, ..idle() };
    player_move_system(&mut w, &push);
    let v = w.player.unwrap().velocity;
    assert_eq!(v, Vec2Fx { x: 0, y: 168208 });
}

#[test]
fn factory_without_player_does_nothing() {
    let mut w = booted(7);
    w.player = None;
    let events_before = w.spawn_events.len();
    scale_rush::world::obstacle_factory_system(&mut w, 1000);
    assert_eq!(w.spawn_events.len(), events_before);
}

#[test]
fn identical_seeds_replay_identical_runs() {
    let mut a = booted(11);
    let mut b = booted(11);
    for _ in 0..5 {
        run_frame(&mut a, &idle(), &no_contacts(), 1000);
        run_frame(&mut b, &idle(), &no_contacts(), 1000);
    }
    assert_eq!(a.obstacles.len(), b.obstacles.len());
    for (x, y) in a.obstacles.iter().zip(b.obstacles.iter()) {
        assert_eq!(x.transform, y.transform);
        assert_eq!(x.obstacle.kind, y.obstacle.kind);
    }
}
