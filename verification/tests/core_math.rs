use scale_rush::fx::{clamp_i64, fx_div, fx_mul, i64_abs, isqrt};
use scale_rush::rng::RandomSource;
use scale_rush::score::TimeScore;
use scale_rush::timer::{Timer, TimerMode};
use scale_rush::vec2::Vec2Fx;

#[test]
fn abs_and_clamp() {
    assert_eq!(i64_abs(-5), 5u64);
    assert_eq!(i64_abs(i64::MIN), 9223372036854775808u64);
    assert_eq!(clamp_i64(-7, 100, 20000), 100);
    assert_eq!(clamp_i64(30000, 100, 20000), 20000);
    assert_eq!(clamp_i64(500, 100, 20000), 500);
}

#[test]
fn fixed_point_products_truncate_toward_zero() {
    assert_eq!(fx_mul(1500, 1000), 1500);
    assert_eq!(fx_mul(1500, -1000), -1500);
    assert_eq!(fx_mul(999, 1), 0);
    assert_eq!(fx_mul(-999, 1), 0);
    assert_eq!(fx_div(1000, 3), 333333);
    assert_eq!(fx_div(-1000, 3), -333333);
}

#[test]
fn integer_square_root_is_exact() {
    assert_eq!(isqrt(0), 0);
    assert_eq!(isqrt(1), 1);
    assert_eq!(isqrt(2000000), 1414);
    assert_eq!(isqrt(8000000), 2828);
    assert_eq!(isqrt(u64::MAX), 4294967295);
}

#[test]
fn vector_length_and_direction() {
    let v = Vec2Fx { x: 3000, y: 4000 };
    assert_eq!(v.length(), 5000);
    assert_eq!(v.normalize_or_zero(), Vec2Fx { x: 600, y: 800 });
    let z = Vec2Fx { x: 0, y: 0 };
    assert_eq!(z.length(), 0);
    assert_eq!(z.normalize_or_zero(), Vec2Fx { x: 0, y: 0 });
}

#[test]
fn repeating_timer_wraps_and_reports_completion() {
    let mut t = Timer::new_repeating(1000);
    t.tick(999);
    assert!(!t.just_finished);
    assert_eq!(t.elapsed_ms, 999);
    t.tick(1);
    assert!(t.just_finished);
    assert_eq!(t.elapsed_ms, 0);
    t.tick(2500);
    assert!(t.just_finished);
    assert_eq!(t.elapsed_ms, 500);
    t.tick(100);
    assert!(!t.just_finished);
    assert_eq!(t.elapsed_ms, 600);
}

#[test]
fn once_timer_finishes_exactly_at_its_duration() {
    let mut t = Timer::new_once(500);
    t.tick(499);
    assert!(!t.finished());
    assert!(!t.just_finished);
    t.tick(1);
    assert!(t.finished());
    assert!(t.just_finished);
    t.tick(10);
    assert!(t.finished());
    assert!(!t.just_finished);
    assert_eq!(t.elapsed_ms, 500);
    assert_eq!(t.mode, TimerMode::Once);
}

#[test]
fn random_stream_is_reproducible_from_its_seed() {
    let mut a = RandomSource::new(42);
    let mut b = RandomSource::new(42);
    for _ in 0..16 {
        assert_eq!(a.next_u64(), b.next_u64());
    }
    let mut c = RandomSource::new(43);
    assert_ne!(a.next_u64(), c.next_u64());
}

#[test]
fn random_draws_stay_in_range() {
    let mut r = RandomSource::new(7);
    for _ in 0..64 {
        let d = r.rand_below(5);
        assert!(d < 5);
        let u = r.unit_milli();
        assert!((0..=1000).contains(&u));
        let s = r.signed_unit_milli();
        assert!((-1000..=1000).contains(&s));
    }
}

#[test]
fn zero_seed_still_draws() {
    let mut r = RandomSource::new(0);
    let first = r.next_u64();
    assert_ne!(first, 0);
}

#[test]
fn score_renders_minutes_and_seconds() {
    assert_eq!(TimeScore { elapsed_ms: 0 }.to_string().as_str(), "00:00");
    assert_eq!(TimeScore { elapsed_ms: 59999 }.to_string().as_str(), "00:59");
    assert_eq!(TimeScore { elapsed_ms: 65000 }.to_string().as_str(), "01:05");
    assert_eq!(TimeScore { elapsed_ms: 3725000 }.to_string().as_str(), "62:05");
    assert_eq!(TimeScore { elapsed_ms: 6050000 }.to_string().as_str(), "100:50");
}

#[test]
fn score_accumulates_frame_deltas() {
    let mut s = TimeScore::default();
    s.tick(400);
    s.tick(600);
    assert_eq!(s.elapsed_ms, 1000);
    assert_eq!(s.to_string().as_str(), "00:01");
}
