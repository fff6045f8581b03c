use scale_rush::collision::{resolve_hit, HitOutcome};
use scale_rush::culling::behind;
use scale_rush::obstacle::{
    BustEffect, ColorKind, EffectCommand, Obstacle, ObstacleKind, RigidBodyKind, GROUP_ALL,
    GROUP_MOBILE,
};
use scale_rush::scale::{Scale, Transform2};
use scale_rush::strategy::{calc_speed, Enemy, Strategy, ENEMY_RANGE};
use scale_rush::vec2::Vec2Fx;

fn uniform(pos: Vec2Fx, s: i64) -> Transform2 {
    Transform2 { pos, scale: Vec2Fx { x: s, y: s } }
}

#[test]
fn scale_apply_grows_multiplicatively() {
    let sc = Scale { speed: 500 };
    let mut t = uniform(Vec2Fx { x: 0, y: 0 }, 1000);
    sc.apply(1000, &mut t);
    assert_eq!(t.scale, Vec2Fx { x: 1500, y: 1500 });
    sc.apply(1000, &mut t);
    assert_eq!(t.scale, Vec2Fx { x: 2250, y: 2250 });
}

#[test]
fn scale_stays_in_bounds_under_repeated_growth() {
    let sc = Scale { speed: 1000 };
    let mut t = uniform(Vec2Fx { x: 0, y: 0 }, 1000);
    for _ in 0..50 {
        sc.apply(1000, &mut t);
        assert!(t.scale.x >= 100 && t.scale.x <= 20000);
        assert!(t.scale.y >= 100 && t.scale.y <= 20000);
    }
    assert_eq!(t.scale, Vec2Fx { x: 20000, y: 20000 });
}

#[test]
fn scale_stays_in_bounds_under_repeated_shrink() {
    let sc = Scale { speed: -500 };
    let mut t = uniform(Vec2Fx { x: 0, y: 0 }, 1000);
    for _ in 0..50 {
        sc.apply(1000, &mut t);
        assert!(t.scale.x >= 100 && t.scale.x <= 20000);
    }
    assert_eq!(t.scale, Vec2Fx { x: 100, y: 100 });
}

#[test]
fn toggling_twice_restores_the_rate() {
    let mut sc = Scale { speed: 500 };
    sc.swap();
    assert_eq!(sc.speed, -500);
    sc.swap();
    assert_eq!(sc.speed, 500);
}

#[test]
fn movement_speed_shrinks_with_size() {
    let small = uniform(Vec2Fx { x: 0, y: 0 }, 1000);
    let big = uniform(Vec2Fx { x: 0, y: 0 }, 4000);
    let vs = calc_speed(&small);
    let vb = calc_speed(&big);
    assert_eq!(vs, 168208);
    assert!(vb < vs);
}

#[test]
fn strategy_rules_follow_run_idle() {
    let dir = Vec2Fx { x: 1000, y: 0 };
    assert_eq!(Strategy::Idle.calc(dir, 10), Vec2Fx { x: 0, y: 0 });
    let follow = Strategy::Follow { max_distance: 100 };
    assert_eq!(follow.calc(dir, 100), dir);
    assert_eq!(follow.calc(dir, 101), Vec2Fx { x: 0, y: 0 });
    let run = Strategy::Run { max_distance: 100 };
    assert_eq!(run.calc(dir, 100), Vec2Fx { x: -1000, y: 0 });
    assert_eq!(run.calc(dir, 101), Vec2Fx { x: 0, y: 0 });
}

#[test]
fn enemy_tick_is_deterministic() {
    let enemy = Enemy::lazy_suicide();
    let et = uniform(Vec2Fx { x: 0, y: 0 }, 1000);
    let pt = uniform(Vec2Fx { x: 100000, y: 0 }, 2000);
    let v1 = enemy.tick(&et, &pt);
    let v2 = enemy.tick(&et, &pt);
    assert_eq!(v1, v2);
    assert_eq!(v1, Vec2Fx { x: 168208, y: 0 });
}

#[test]
fn enemy_out_of_range_stays_put() {
    let enemy = Enemy::lazy_suicide();
    let et = uniform(Vec2Fx { x: 0, y: 0 }, 1000);
    let pt = uniform(Vec2Fx { x: 500000, y: 0 }, 2000);
    assert_eq!(enemy.tick(&et, &pt), Vec2Fx { x: 0, y: 0 });
}

#[test]
fn enemy_bucket_follows_relative_size() {
    let enemy = Enemy::lazy_smart_aggressive();
    let near = Vec2Fx { x: 50000, y: 0 };
    let bigger = enemy.tick(&uniform(Vec2Fx { x: 0, y: 0 }, 4000), &uniform(near, 1000));
    assert!(bigger.x > 0);
    let smaller = enemy.tick(&uniform(Vec2Fx { x: 0, y: 0 }, 1000), &uniform(near, 4000));
    assert!(smaller.x < 0);
    let equal = enemy.tick(&uniform(Vec2Fx { x: 0, y: 0 }, 1000), &uniform(near, 1000));
    assert_eq!(equal, Vec2Fx { x: 0, y: 0 });
}

#[test]
fn absorb_threshold_is_boundary_inclusive() {
    assert_eq!(resolve_hit(2000, 1000, -64000), HitOutcome::Absorb);
    assert_eq!(resolve_hit(2000, 1000, 64000), HitOutcome::Absorb);
    assert_eq!(resolve_hit(2000, 1000, -63999), HitOutcome::Graze);
    assert_eq!(resolve_hit(1000, 2000, -64000), HitOutcome::PlayerDestroyed);
    assert_eq!(resolve_hit(1000, 2000, -63999), HitOutcome::Graze);
    assert_eq!(resolve_hit(1000, 1000, -64000), HitOutcome::Absorb);
}

#[test]
fn hazard_colors_match_their_kind() {
    assert_eq!(ObstacleKind::Block.get_color(), ColorKind::Gray);
    assert_eq!(ObstacleKind::ScaleBust(true).get_color(), ColorKind::Blue);
    assert_eq!(ObstacleKind::ScaleBust(false).get_color(), ColorKind::Red);
    assert_eq!(ObstacleKind::Ice.get_color(), ColorKind::White);
    assert_eq!(ObstacleKind::Poison.get_color(), ColorKind::Green);
}

#[test]
fn hazard_bundles_match_their_kind() {
    let block = ObstacleKind::Block.add_bundle();
    assert_eq!(block.body, RigidBodyKind::Fixed);
    assert_eq!(block.solver_memberships, GROUP_ALL);
    assert_eq!(block.enemy, None);
    let bust = ObstacleKind::ScaleBust(true).add_bundle();
    assert_eq!(bust.body, RigidBodyKind::Dynamic);
    assert_eq!(bust.solver_memberships, GROUP_MOBILE);
    assert_eq!(bust.enemy, Some(Enemy::lazy_aggressive()));
    assert_eq!(ObstacleKind::Ice.add_bundle().enemy, Some(Enemy::lazy_suicide_aggressive()));
    assert_eq!(ObstacleKind::Poison.add_bundle().enemy, Some(Enemy::lazy_suicide()));
}

#[test]
fn absorbed_hazards_grant_their_kind_effect() {
    let sc = Scale { speed: 500 };
    match (Obstacle { kind: ObstacleKind::ScaleBust(true) }).create_effect(7, &sc) {
        Some(EffectCommand::SpawnBust { bust, temporary }) => {
            assert_eq!(bust, BustEffect { target: 7, speed: 1000 });
            assert_eq!(temporary.timer.duration_ms, 500);
        },
        other => panic!("unexpected command: {:?}", other),
    }
    match (Obstacle { kind: ObstacleKind::ScaleBust(false) }).create_effect(7, &sc) {
        Some(EffectCommand::SpawnBust { bust, .. }) => {
            assert_eq!(bust.speed, -1500);
        },
        other => panic!("unexpected command: {:?}", other),
    }
    assert!((Obstacle { kind: ObstacleKind::Block }).create_effect(7, &sc).is_none());
    assert!(matches!(
        (Obstacle { kind: ObstacleKind::Ice }).create_effect(7, &sc),
        Some(EffectCommand::SpawnFrozen { .. })
    ));
    assert!(matches!(
        (Obstacle { kind: ObstacleKind::Poison }).create_effect(7, &sc),
        Some(EffectCommand::SpawnDestroy { .. })
    ));
}

#[test]
fn bust_effect_multiplies_and_clamps() {
    let bust = BustEffect { target: 1, speed: 1000 };
    let mut t = uniform(Vec2Fx { x: 0, y: 0 }, 1000);
    bust.apply(500, &mut t);
    assert_eq!(t.scale, Vec2Fx { x: 1500, y: 1500 });
    let shrink = BustEffect { target: 1, speed: -1500 };
    let mut t2 = uniform(Vec2Fx { x: 0, y: 0 }, 150);
    shrink.apply(1000, &mut t2);
    assert_eq!(t2.scale, Vec2Fx { x: 100, y: 100 });
}

#[test]
fn rear_half_plane_test_is_quarter_turn_inclusive() {
    let cam = Vec2Fx { x: 0, y: 0 };
    let vel = Vec2Fx { x: 0, y: 80000 };
    assert!(behind(Vec2Fx { x: 0, y: -100000 }, cam, vel));
    assert!(behind(Vec2Fx { x: 500, y: 0 }, cam, vel));
    assert!(!behind(Vec2Fx { x: 0, y: 500 }, cam, vel));
    assert!(!behind(Vec2Fx { x: 0, y: -100000 }, cam, Vec2Fx { x: 0, y: 0 }));
    assert!(!behind(cam, cam, vel));
}

#[test]
fn stock_strategy_triples() {
    let e = Enemy::lazy_smart_aggressive();
    assert_eq!(e.when_bigger, Strategy::Follow { max_distance: ENEMY_RANGE });
    assert_eq!(e.when_smaller, Strategy::Run { max_distance: ENEMY_RANGE });
    assert_eq!(e.when_equal, Strategy::Idle);
    let s = Enemy::smart_aggressive();
    assert_eq!(s.when_bigger, Strategy::Follow { max_distance: i64::MAX });
}
