//! Timers, geometry and the enemy registry.

use survival_core::enemy::{Enemy, EnemyRegistry, EnemyStats, EnemyType};
use survival_core::geom::{circles_collide, cos_milli, distance_squared, isqrt, sin_milli, Vec2I};
use survival_core::timer::{Timer, TimerMode};

fn grunt(id: u64, x: i64, y: i64, health: i32) -> Enemy {
    Enemy {
        id,
        pos: Vec2I { x, y },
        radius: 20_000,
        health,
        damage_on_collision: 10,
        speed: 100_000,
        enemy_type: EnemyType::Grunt,
        frozen: None,
        spitter: None,
    }
}

#[test]
fn repeating_timer_fires_once_per_tick_even_with_huge_delta() {
    let mut t = Timer::new(500, TimerMode::Repeating);
    // a delta covering ten full periods still reports a single edge
    t.tick(5_000);
    assert!(t.just_finished());
    // the excess was folded away, not queued into extra triggers
    t.tick(100);
    assert!(!t.just_finished());
    t.tick(400);
    assert!(t.just_finished());
}

#[test]
fn once_timer_stays_finished_until_reset() {
    let mut t = Timer::new(1000, TimerMode::Once);
    t.tick(250);
    assert!(!t.finished());
    t.tick(750);
    assert!(t.finished());
    assert!(t.just_finished());
    // already finished: no second edge, ever
    t.tick(10_000);
    assert!(t.finished());
    assert!(!t.just_finished());
    t.reset();
    assert!(!t.finished());
    t.tick(1000);
    assert!(t.just_finished());
}

#[test]
fn set_duration_keeps_edge_state() {
    let mut t = Timer::new(2000, TimerMode::Repeating);
    t.tick(1000);
    t.set_duration(800);
    // accumulator clamped, finished recomputed, no retroactive edge
    assert_eq!(t.elapsed_ms, 800);
    assert!(!t.just_finished());
}

#[test]
fn paused_timer_holds_still() {
    let mut t = Timer::new(1000, TimerMode::Once);
    t.pause();
    t.tick(5000);
    assert_eq!(t.elapsed_ms, 0);
    assert!(!t.finished());
    t.unpause();
    t.tick(1000);
    assert!(t.finished());
}

#[test]
fn collision_is_strict_on_the_boundary() {
    let a = Vec2I { x: 0, y: 0 };
    // centers at distance exactly r1 + r2 = 30_000: no collision
    let b = Vec2I { x: 30_000, y: 0 };
    assert!(!circles_collide(a, 10_000, b, 20_000));
    // one milli-unit closer: collision
    let c = Vec2I { x: 29_999, y: 0 };
    assert!(circles_collide(a, 10_000, c, 20_000));
}

#[test]
fn distance_squared_is_exact() {
    let a = Vec2I { x: 3, y: 4 };
    let b = Vec2I { x: 0, y: 0 };
    assert_eq!(distance_squared(a, b), 25);
    assert_eq!(isqrt(25), 5);
    assert_eq!(isqrt(24), 4);
    assert_eq!(isqrt(0), 0);
}

#[test]
fn trig_hits_exact_anchor_points() {
    // Bhaskara's approximation is exact at 0, 30, 90, 150 and 180 degrees
    assert_eq!(sin_milli(0), 0);
    assert_eq!(sin_milli(300), 500);
    assert_eq!(sin_milli(900), 1000);
    assert_eq!(sin_milli(1500), 500);
    assert_eq!(cos_milli(0), 1000);
    assert_eq!(cos_milli(900), 0);
    assert_eq!(sin_milli(2700), -1000);
}

#[test]
fn despawn_is_idempotent() {
    let mut reg = EnemyRegistry::new();
    reg.spawn(grunt(7, 0, 0, 20));
    reg.spawn(grunt(8, 50_000, 0, 20));
    assert_eq!(reg.count(), 2);
    // two despawn requests for one id remove exactly one enemy
    assert!(reg.despawn(7));
    assert!(!reg.despawn(7));
    assert_eq!(reg.count(), 1);
    assert_eq!(reg.list[0].id, 8);
    // a request for an id that never existed removes nothing
    assert!(!reg.despawn(99));
    assert_eq!(reg.count(), 1);
}

#[test]
fn enemy_stats_scale_with_the_wave_multiplier() {
    let base = EnemyStats::get_for_type(EnemyType::Grunt, 100);
    assert_eq!(base.health, 20);
    assert_eq!(base.speed, 100_000);
    assert_eq!(base.radius, 20_000);
    let wave2 = EnemyStats::get_for_type(EnemyType::Grunt, 110);
    assert_eq!(wave2.health, 22);
    assert_eq!(wave2.speed, 102_000);
    let tank = EnemyStats::get_for_type(EnemyType::Tank, 100);
    assert_eq!(tank.health, 75);
    assert_eq!(tank.damage_on_collision, 15);
    let spitter = EnemyStats::get_for_type(EnemyType::Spitter, 100);
    assert_eq!(spitter.spitter_range, Some(300_000));
    assert_eq!(spitter.spitter_projectile_damage, Some(8));
}
