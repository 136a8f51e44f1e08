//! Collision resolution: piercing, chaining, death handling, the
//! invincibility window, the aura and the orbiters.

use survival_core::bullet::{bullet_collision_system, Bullet};
use survival_core::enemy::{
    enemy_projectile_collision_system, Enemy, EnemyProjectile, EnemyRegistry, EnemyType,
};
use survival_core::events::SoundEffect;
use survival_core::geom::Vec2I;
use survival_core::player::{player_enemy_collision_system, player_invincibility_system, Player};
use survival_core::resolve::{apply_despawns, Pickup};
use survival_core::skills::{skill_projectile_collision_system, SkillId, SkillProjectile};
use survival_core::timer::{Timer, TimerMode};
use survival_core::weapons::{
    aoe_aura_weapon_system, manage_orbiters_system, orbiter_collision_system, AoeAuraWeapon,
    Orbiter, OrbitingProjectileWeapon,
};

fn grunt(id: u64, x: i64, y: i64, health: i32) -> Enemy {
    Enemy {
        id,
        pos: Vec2I { x, y },
        radius: 20_000,
        health,
        damage_on_collision: 10,
        speed: 100_000,
        enemy_type: EnemyType::Grunt,
        frozen: None,
        spitter: None,
    }
}

fn bullet_at(x: i64, y: i64, damage: i32, pierce: u32) -> Bullet {
    Bullet {
        pos: Vec2I { x, y },
        vel: Vec2I { x: 0, y: 0 },
        damage,
        piercing_left: pierce,
        already_hit: Vec::new(),
        lifetime: Timer::new(2000, TimerMode::Once),
    }
}

fn skill_projectile_at(x: i64, y: i64, damage: i32, pierce: u32, bounces: u32) -> SkillProjectile {
    SkillProjectile {
        skill_id: SkillId(1),
        pos: Vec2I { x, y },
        vel: Vec2I { x: 0, y: 0 },
        damage,
        radius: 14_000,
        piercing_left: pierce,
        bounces_left: bounces,
        already_hit: Vec::new(),
        lifetime: Timer::new(2500, TimerMode::Once),
        speed: 650_000,
        base_piercing: pierce,
        lifetime_ms: 2500,
    }
}

struct Queues {
    score: u32,
    pickups: Vec<Pickup>,
    sounds: Vec<SoundEffect>,
    texts: Vec<survival_core::events::DamageText>,
    despawns: Vec<u64>,
}

fn queues() -> Queues {
    Queues { score: 0, pickups: Vec::new(), sounds: Vec::new(), texts: Vec::new(), despawns: Vec::new() }
}

#[test]
fn pierce_one_bullet_strikes_exactly_two_targets() {
    // three grunts stacked on the bullet; pierce = 1 allows two strikes
    let mut reg = EnemyRegistry::new();
    reg.spawn(grunt(1, 0, 0, 50));
    reg.spawn(grunt(2, 10_000, 0, 50));
    reg.spawn(grunt(3, 20_000, 0, 50));
    let mut bullets = vec![bullet_at(0, 0, 10, 1)];
    let mut q = queues();
    bullet_collision_system(
        &mut bullets,
        &mut reg,
        0,
        &mut q.score,
        &mut q.pickups,
        &mut q.sounds,
        &mut q.texts,
        &mut q.despawns,
    );
    assert_eq!(reg.list[0].health, 40);
    assert_eq!(reg.list[1].health, 40);
    // never a third target: the second strike consumed the bullet
    assert_eq!(reg.list[2].health, 50);
    assert_eq!(bullets.len(), 0);
}

#[test]
fn bullet_never_hits_the_same_target_twice() {
    // a piercing bullet overlapping a surviving enemy across two frames
    // strikes it once: the target joins the bullet's hit list for its
    // whole lifetime
    let mut reg = EnemyRegistry::new();
    reg.spawn(grunt(6, 0, 0, 100));
    let mut bullets = vec![bullet_at(0, 0, 10, 2)];
    let mut q = queues();
    bullet_collision_system(
        &mut bullets,
        &mut reg,
        0,
        &mut q.score,
        &mut q.pickups,
        &mut q.sounds,
        &mut q.texts,
        &mut q.despawns,
    );
    assert_eq!(reg.list[0].health, 90);
    assert_eq!(bullets[0].already_hit, vec![6u64]);
    assert_eq!(bullets[0].piercing_left, 1);
    bullet_collision_system(
        &mut bullets,
        &mut reg,
        16,
        &mut q.score,
        &mut q.pickups,
        &mut q.sounds,
        &mut q.texts,
        &mut q.despawns,
    );
    // the second frame lands nothing on the excluded target
    assert_eq!(reg.list[0].health, 90);
    assert_eq!(bullets[0].piercing_left, 1);
}

#[test]
fn pierce_survivor_keeps_remaining_budget() {
    let mut reg = EnemyRegistry::new();
    reg.spawn(grunt(1, 0, 0, 50));
    let mut bullets = vec![bullet_at(0, 0, 10, 3)];
    let mut q = queues();
    bullet_collision_system(
        &mut bullets,
        &mut reg,
        0,
        &mut q.score,
        &mut q.pickups,
        &mut q.sounds,
        &mut q.texts,
        &mut q.despawns,
    );
    assert_eq!(bullets.len(), 1);
    assert_eq!(bullets[0].piercing_left, 2);
}

#[test]
fn two_hits_kill_score_once_and_drop_one_pickup() {
    // an enemy with 20 health dies exactly on the second 10-damage hit
    let mut reg = EnemyRegistry::new();
    reg.spawn(grunt(5, 0, 0, 20));
    let mut q = queues();

    let mut bullets = vec![bullet_at(0, 0, 10, 0)];
    bullet_collision_system(
        &mut bullets,
        &mut reg,
        0,
        &mut q.score,
        &mut q.pickups,
        &mut q.sounds,
        &mut q.texts,
        &mut q.despawns,
    );
    apply_despawns(&mut reg, &mut q.despawns);
    assert_eq!(reg.list[0].health, 10);
    assert_eq!(q.score, 0);
    assert_eq!(q.pickups.len(), 0);
    assert_eq!(reg.count(), 1);

    let mut bullets = vec![bullet_at(0, 0, 10, 0)];
    bullet_collision_system(
        &mut bullets,
        &mut reg,
        16,
        &mut q.score,
        &mut q.pickups,
        &mut q.sounds,
        &mut q.texts,
        &mut q.despawns,
    );
    apply_despawns(&mut reg, &mut q.despawns);
    // death handling fired exactly once
    assert_eq!(q.score, 10);
    assert_eq!(q.pickups.len(), 1);
    assert_eq!(q.pickups[0].pos, Vec2I { x: 0, y: 0 });
    assert_eq!(reg.count(), 0);
    assert!(q.sounds.contains(&SoundEffect::EnemyDeath));
}

#[test]
fn chain_spawns_exactly_one_successor_at_the_nearest_target() {
    // pierce = 0, bounces = 1: the first hit consumes the projectile and
    // chains to the nearest untouched enemy within the chain radius
    let mut reg = EnemyRegistry::new();
    reg.spawn(grunt(1, 0, 0, 50));
    reg.spawn(grunt(2, 200_000, 0, 50));
    reg.spawn(grunt(3, 100_000, 0, 50));
    let mut projs = vec![skill_projectile_at(0, 0, 15, 0, 1)];
    let mut q = queues();
    skill_projectile_collision_system(
        &mut projs,
        &mut reg,
        0,
        &mut q.score,
        &mut q.pickups,
        &mut q.sounds,
        &mut q.texts,
        &mut q.despawns,
    );
    // the struck enemy took the damage, the others are untouched
    assert_eq!(reg.list[0].health, 35);
    assert_eq!(reg.list[1].health, 50);
    assert_eq!(reg.list[2].health, 50);
    // exactly one successor: at the hit point, aimed at the nearer enemy,
    // seeded with the new target, one bounce fewer
    assert_eq!(projs.len(), 1);
    let succ = &projs[0];
    assert_eq!(succ.pos, Vec2I { x: 0, y: 0 });
    assert_eq!(succ.bounces_left, 0);
    assert_eq!(succ.already_hit, vec![3u64]);
    assert!(succ.vel.x > 0 && succ.vel.y == 0);
}

#[test]
fn chain_without_candidates_despawns_with_no_successor() {
    let mut reg = EnemyRegistry::new();
    reg.spawn(grunt(1, 0, 0, 50));
    // the only other enemy sits outside the 250-unit chain radius
    reg.spawn(grunt(2, 400_000, 0, 50));
    let mut projs = vec![skill_projectile_at(0, 0, 15, 0, 1)];
    let mut q = queues();
    skill_projectile_collision_system(
        &mut projs,
        &mut reg,
        0,
        &mut q.score,
        &mut q.pickups,
        &mut q.sounds,
        &mut q.texts,
        &mut q.despawns,
    );
    assert_eq!(projs.len(), 0);
}

#[test]
fn skill_projectile_never_hits_the_same_target_twice() {
    let mut reg = EnemyRegistry::new();
    reg.spawn(grunt(9, 0, 0, 50));
    let mut projs = vec![skill_projectile_at(0, 0, 10, 5, 0)];
    let mut q = queues();
    skill_projectile_collision_system(
        &mut projs,
        &mut reg,
        0,
        &mut q.score,
        &mut q.pickups,
        &mut q.sounds,
        &mut q.texts,
        &mut q.despawns,
    );
    assert_eq!(reg.list[0].health, 40);
    assert_eq!(projs[0].already_hit, vec![9u64]);
    // a second pass over the same target lands nothing further
    skill_projectile_collision_system(
        &mut projs,
        &mut reg,
        16,
        &mut q.score,
        &mut q.pickups,
        &mut q.sounds,
        &mut q.texts,
        &mut q.despawns,
    );
    assert_eq!(reg.list[0].health, 40);
}

#[test]
fn invincibility_window_gates_contact_damage() {
    // a hit lands, resets the window; at half a second nothing lands; past
    // the full second the next hit lands again
    let mut p = Player::new_player();
    p.invincibility_timer.tick(1000);
    assert!(p.invincibility_timer.finished);
    let mut reg = EnemyRegistry::new();
    reg.spawn(grunt(1, 0, 0, 50));
    let mut sounds = Vec::new();

    player_enemy_collision_system(&mut p, &reg, &mut sounds);
    assert_eq!(p.health, 90);

    player_invincibility_system(&mut p, 500);
    player_enemy_collision_system(&mut p, &reg, &mut sounds);
    assert_eq!(p.health, 90);

    player_invincibility_system(&mut p, 600);
    player_enemy_collision_system(&mut p, &reg, &mut sounds);
    assert_eq!(p.health, 80);
    assert_eq!(sounds, vec![SoundEffect::PlayerHit, SoundEffect::PlayerHit]);
}

#[test]
fn enemy_projectile_is_consumed_even_while_invincible() {
    let mut p = Player::new_player();
    // the window is still open: damage is blocked, the projectile vanishes
    let mut projs = vec![EnemyProjectile {
        pos: Vec2I { x: 0, y: 0 },
        vel: Vec2I { x: 0, y: 0 },
        damage: 8,
        lifetime: Timer::new(3000, TimerMode::Once),
    }];
    let mut sounds = Vec::new();
    enemy_projectile_collision_system(&mut projs, &mut p, &mut sounds);
    assert_eq!(p.health, 100);
    assert_eq!(projs.len(), 0);
    assert_eq!(sounds.len(), 0);
}

#[test]
fn orbiter_reconciliation_spawns_three_evenly_spaced() {
    let mut orbiters: Vec<Orbiter> = Vec::new();
    let mut weapon = OrbitingProjectileWeapon::default();
    weapon.is_active = true;
    weapon.num_orbiters = 3;
    manage_orbiters_system(&mut orbiters, &weapon);
    assert_eq!(orbiters.len(), 3);
    // slots one third of a turn apart: 120 degrees in deci-degrees
    assert_eq!(orbiters[0].angle_dd, 0);
    assert_eq!(orbiters[1].angle_dd, 1200);
    assert_eq!(orbiters[2].angle_dd, 2400);
    // reducing the target to one despawns exactly two
    weapon.num_orbiters = 1;
    manage_orbiters_system(&mut orbiters, &weapon);
    assert_eq!(orbiters.len(), 1);
}

#[test]
fn orbiter_hit_goes_on_cooldown() {
    let mut orbiters: Vec<Orbiter> = Vec::new();
    let mut weapon = OrbitingProjectileWeapon::default();
    weapon.is_active = true;
    weapon.num_orbiters = 1;
    weapon.orbit_radius = 0;
    manage_orbiters_system(&mut orbiters, &weapon);
    let mut reg = EnemyRegistry::new();
    reg.spawn(grunt(4, 0, 0, 50));
    let mut q = queues();
    orbiter_collision_system(
        &mut orbiters,
        &weapon,
        Vec2I { x: 0, y: 0 },
        &mut reg,
        16,
        16,
        &mut q.score,
        &mut q.pickups,
        &mut q.sounds,
        &mut q.texts,
        &mut q.despawns,
    );
    assert_eq!(reg.list[0].health, 45);
    assert_eq!(orbiters[0].cooldowns.len(), 1);
    assert_eq!(orbiters[0].cooldowns[0].0, 4);
    // the same target is not struck again while cooling down
    orbiter_collision_system(
        &mut orbiters,
        &weapon,
        Vec2I { x: 0, y: 0 },
        &mut reg,
        16,
        32,
        &mut q.score,
        &mut q.pickups,
        &mut q.sounds,
        &mut q.texts,
        &mut q.despawns,
    );
    assert_eq!(reg.list[0].health, 45);
}

#[test]
fn aura_strikes_everyone_in_radius_each_tick() {
    let mut aura = AoeAuraWeapon::default();
    aura.is_active = true;
    let mut reg = EnemyRegistry::new();
    reg.spawn(grunt(1, 0, 0, 50));
    reg.spawn(grunt(2, 50_000, 0, 50));
    reg.spawn(grunt(3, 500_000, 0, 50));
    let mut q = queues();
    aoe_aura_weapon_system(
        &mut aura,
        Vec2I { x: 0, y: 0 },
        &mut reg,
        500,
        500,
        &mut q.score,
        &mut q.pickups,
        &mut q.sounds,
        &mut q.texts,
        &mut q.despawns,
    );
    // both enemies inside the 75-unit radius took the tick damage; the
    // far one is untouched
    assert_eq!(reg.list[0].health, 47);
    assert_eq!(reg.list[1].health, 47);
    assert_eq!(reg.list[2].health, 50);
}
