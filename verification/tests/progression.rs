//! Skills, experience, leveling, upgrades, spawning, novas and the
//! orchestrated tick.

use survival_core::enemy::{enemy_spawn_system, Enemy, EnemyRegistry, EnemyType};
use survival_core::events::SoundEffect;
use survival_core::game::{
    apply_chosen_upgrade, award_experience, check_player_death_system, collect_pickups,
    difficulty_scaling_system, AppState, GameState,
};
use survival_core::geom::Vec2I;
use survival_core::player::Player;
use survival_core::resolve::Pickup;
use survival_core::sim::{Sim, TickInput};
use survival_core::skills::{
    freezing_nova_effect_damage_system, ActiveSkillInstance, FreezingNovaEffect, SkillId,
};
use survival_core::timer::{Timer, TimerMode};
use survival_core::upgrades::{initialize_upgrade_pool, UpgradeType};
use survival_core::weapons::{AoeAuraWeapon, OrbitingProjectileWeapon};
use survival_core::bullet::BasicWeapon;

#[test]
fn test_active_skill_instance_new() {
    let skill_instance = ActiveSkillInstance::new(SkillId(1), 2);
    assert_eq!(skill_instance.definition_id, SkillId(1));
    assert_eq!(skill_instance.current_cooldown_ms, 0);
    assert_eq!(skill_instance.current_level, 1);
    assert_eq!(skill_instance.flat_damage_bonus, 0);
    assert_eq!(skill_instance.cooldown_multiplier_pct, 100);
    assert_eq!(skill_instance.aoe_radius_multiplier_pct, 100);
    assert_eq!(skill_instance.equipped_glyphs.len(), 2);
    assert!(skill_instance.equipped_glyphs.iter().all(|g| g.is_none()));
}

#[test]
fn test_active_skill_instance_trigger() {
    let mut skill_instance = ActiveSkillInstance::new(SkillId(1), 0);
    let base_cooldown_ms: u64 = 2000;

    assert!(skill_instance.is_ready());
    skill_instance.trigger(base_cooldown_ms);
    assert!(!skill_instance.is_ready());
    assert_eq!(skill_instance.current_cooldown_ms, base_cooldown_ms);

    skill_instance.current_cooldown_ms = 0;
    skill_instance.cooldown_multiplier_pct = 50;
    skill_instance.trigger(base_cooldown_ms);
    assert_eq!(skill_instance.current_cooldown_ms, 1000);
}

#[test]
fn test_active_skill_instance_tick_cooldown() {
    let mut skill_instance = ActiveSkillInstance::new(SkillId(1), 0);
    skill_instance.current_cooldown_ms = 5000;

    skill_instance.tick_cooldown(1000);
    assert_eq!(skill_instance.current_cooldown_ms, 4000);

    skill_instance.tick_cooldown(5000);
    assert_eq!(skill_instance.current_cooldown_ms, 0);
}

#[test]
fn xp_table_and_extrapolation() {
    let mut p = Player::new_player();
    assert_eq!(p.experience_to_next_level(), 100);
    p.level = 10;
    assert_eq!(p.experience_to_next_level(), 2500);
    p.level = 11;
    assert_eq!(p.experience_to_next_level(), 3000);
    p.level = 12;
    assert_eq!(p.experience_to_next_level(), 3500);
}

#[test]
fn one_threshold_levels_once() {
    let mut p = Player::new_player();
    let mut phase = AppState::InGame;
    let mut sounds = Vec::new();
    let leveled = award_experience(&mut p, &mut phase, 100, &mut sounds);
    assert!(leveled);
    assert_eq!(p.level, 2);
    assert_eq!(phase, AppState::LevelUp);
    assert_eq!(sounds, vec![SoundEffect::LevelUp]);
}

#[test]
fn two_thresholds_in_one_award_still_level_once() {
    // 300 XP crosses level one's 100 and level two's 150 at once; the level
    // still rises by exactly one and one transition fires — the surplus
    // waits for the next award (the preserved design quirk)
    let mut p = Player::new_player();
    let mut phase = AppState::InGame;
    let mut sounds = Vec::new();
    let leveled = award_experience(&mut p, &mut phase, 300, &mut sounds);
    assert!(leveled);
    assert_eq!(p.level, 2);
    assert_eq!(p.current_level_xp, 200);
    assert_eq!(sounds.len(), 1);
    // the banked surplus resolves on the next award, however small
    phase = AppState::InGame;
    let leveled_again = award_experience(&mut p, &mut phase, 0, &mut sounds);
    assert!(leveled_again);
    assert_eq!(p.level, 3);
}

#[test]
fn below_threshold_does_not_level() {
    let mut p = Player::new_player();
    let mut phase = AppState::InGame;
    let mut sounds = Vec::new();
    let leveled = award_experience(&mut p, &mut phase, 99, &mut sounds);
    assert!(!leveled);
    assert_eq!(p.level, 1);
    assert_eq!(phase, AppState::InGame);
    assert_eq!(p.current_level_xp, 99);
}

#[test]
fn xp_gain_multiplier_scales_awards() {
    let mut p = Player::new_player();
    p.xp_gain_pct = 120;
    let mut phase = AppState::InGame;
    let mut sounds = Vec::new();
    award_experience(&mut p, &mut phase, 50, &mut sounds);
    // 50 at 120 percent, rounded: 60
    assert_eq!(p.experience, 60);
}

#[test]
fn pickups_in_radius_are_collected() {
    let p = Player::new_player();
    let mut pickups = vec![
        Pickup { pos: Vec2I { x: 50_000, y: 0 }, xp_value: 10 },
        Pickup { pos: Vec2I { x: 500_000, y: 0 }, xp_value: 10 },
    ];
    let mut sounds = Vec::new();
    let xp = collect_pickups(&p, &mut pickups, &mut sounds);
    assert_eq!(xp, 10);
    assert_eq!(pickups.len(), 1);
    assert_eq!(pickups[0].pos.x, 500_000);
    assert_eq!(sounds, vec![SoundEffect::XpCollect]);
}

#[test]
fn upgrades_change_exactly_their_stat() {
    let mut p = Player::new_player();
    let mut weapon = BasicWeapon { fire_rate: Timer::new(500, TimerMode::Repeating) };
    let mut aura = AoeAuraWeapon::default();
    let mut orbit = OrbitingProjectileWeapon::default();

    apply_chosen_upgrade(UpgradeType::PlayerSpeed(10), &mut p, &mut weapon, &mut aura, &mut orbit);
    assert_eq!(p.speed, 275_000);

    apply_chosen_upgrade(UpgradeType::MaxHealth(20), &mut p, &mut weapon, &mut aura, &mut orbit);
    assert_eq!(p.max_health, 120);
    assert_eq!(p.health, 120);

    apply_chosen_upgrade(UpgradeType::FireRate(15), &mut p, &mut weapon, &mut aura, &mut orbit);
    assert_eq!(weapon.fire_rate.duration_ms, 425);

    // aura cards are no-ops while the aura is locked
    apply_chosen_upgrade(
        UpgradeType::IncreaseAoeAuraDamage(2),
        &mut p,
        &mut weapon,
        &mut aura,
        &mut orbit,
    );
    assert_eq!(aura.base_damage_per_tick, 3);
    apply_chosen_upgrade(UpgradeType::UnlockAoeAuraWeapon, &mut p, &mut weapon, &mut aura, &mut orbit);
    assert!(aura.is_active);
    apply_chosen_upgrade(
        UpgradeType::IncreaseAoeAuraDamage(2),
        &mut p,
        &mut weapon,
        &mut aura,
        &mut orbit,
    );
    assert_eq!(aura.base_damage_per_tick, 5);

    apply_chosen_upgrade(UpgradeType::UnlockOrbitingSeeds, &mut p, &mut weapon, &mut aura, &mut orbit);
    assert!(orbit.is_active);
    assert_eq!(orbit.num_orbiters, 2);
}

#[test]
fn catalog_holds_the_full_fixed_set() {
    let pool = initialize_upgrade_pool();
    assert_eq!(pool.available_upgrades.len(), 27);
    // a few fixed entries, including restored stronger variants
    assert!(pool.available_upgrades.iter().any(|c| c.upgrade_type == UpgradeType::PlayerSpeed(15)));
    assert!(pool.available_upgrades.iter().any(|c| c.upgrade_type == UpgradeType::MaxHealth(30)));
    assert!(
        pool.available_upgrades.iter().any(|c| c.upgrade_type == UpgradeType::HealthRegeneration(
            1000
        ))
    );
    assert!(
        pool.available_upgrades.iter().any(|c| c.upgrade_type
            == UpgradeType::IncreaseProjectileCount(2))
    );
}

#[test]
fn zero_aim_projectile_cast_is_a_no_op() {
    // the original spawns nothing and keeps the cooldown when the aim is
    // the zero vector
    let library = survival_core::skills::populate_skill_library();
    let mut skills = vec![ActiveSkillInstance::new(SkillId(1), 0)];
    let mut projs: Vec<survival_core::skills::SkillProjectile> = Vec::new();
    let mut aoes = Vec::new();
    let mut novas = Vec::new();
    let mut buff = None;
    let cast = survival_core::skills::trigger_skill(
        &mut skills,
        &library,
        0,
        Vec2I { x: 0, y: 0 },
        Vec2I { x: 0, y: 0 },
        &mut projs,
        &mut aoes,
        &mut novas,
        &mut buff,
    );
    assert!(!cast);
    assert_eq!(projs.len(), 0);
    assert_eq!(skills[0].current_cooldown_ms, 0);
    // with a usable aim the same slot casts and starts its cooldown
    let cast = survival_core::skills::trigger_skill(
        &mut skills,
        &library,
        0,
        Vec2I { x: 0, y: 0 },
        Vec2I { x: 1000, y: 0 },
        &mut projs,
        &mut aoes,
        &mut novas,
        &mut buff,
    );
    assert!(cast);
    assert_eq!(projs.len(), 1);
    assert_eq!(skills[0].current_cooldown_ms, 1500);
}

#[test]
fn random_offer_draws_without_replacement() {
    let pool = initialize_upgrade_pool();
    let offer = pool.get_random_upgrades(3);
    assert_eq!(offer.len(), 3);
    assert_ne!(offer[0].id, offer[1].id);
    assert_ne!(offer[0].id, offer[2].id);
    assert_ne!(offer[1].id, offer[2].id);
    for card in &offer {
        assert!(pool.available_upgrades.iter().any(|c| c.id == card.id));
    }
}

#[test]
fn spawn_system_spawns_one_grunt_on_wave_one() {
    let mut reg = EnemyRegistry::new();
    let mut spawn_timer = Timer::new(2000, TimerMode::Repeating);
    let mut next_id: u64 = 1;
    enemy_spawn_system(
        &mut reg,
        &mut spawn_timer,
        &mut next_id,
        20,
        1,
        Vec2I { x: 0, y: 0 },
        2000,
    );
    assert_eq!(reg.count(), 1);
    assert_eq!(next_id, 2);
    let e = &reg.list[0];
    assert_eq!(e.id, 1);
    assert_eq!(e.enemy_type, EnemyType::Grunt);
    assert_eq!(e.health, 20);
    // a tick short of the interval spawns nothing
    enemy_spawn_system(
        &mut reg,
        &mut spawn_timer,
        &mut next_id,
        20,
        1,
        Vec2I { x: 0, y: 0 },
        1999,
    );
    assert_eq!(reg.count(), 1);
}

#[test]
fn difficulty_step_raises_wave_and_shrinks_spawn_interval() {
    let mut gs = GameState::new_session();
    let mut spawn_timer = Timer::new(2000, TimerMode::Repeating);
    let mut max_enemies: u32 = 20;
    difficulty_scaling_system(&mut gs, &mut spawn_timer, &mut max_enemies, 30_000);
    assert_eq!(gs.wave_number, 2);
    assert_eq!(max_enemies, 30);
    assert_eq!(spawn_timer.duration_ms, 1800);
}

#[test]
fn nova_bursts_once_and_slows() {
    let mut reg = EnemyRegistry::new();
    reg.spawn(Enemy {
        id: 1,
        pos: Vec2I { x: 100_000, y: 0 },
        radius: 20_000,
        health: 50,
        damage_on_collision: 10,
        speed: 100_000,
        enemy_type: EnemyType::Grunt,
        frozen: None,
        spitter: None,
    });
    let mut novas = vec![FreezingNovaEffect {
        pos: Vec2I { x: 0, y: 0 },
        damage: 20,
        radius: 200_000,
        lifetime_timer: Timer::new(500, TimerMode::Once),
        slow_mult_pct: 50,
        slow_duration_ms: 3000,
        fired: false,
    }];
    let mut score = 0u32;
    let mut pickups = Vec::new();
    let mut sounds = Vec::new();
    let mut texts = Vec::new();
    let mut despawns = Vec::new();
    freezing_nova_effect_damage_system(
        &mut novas,
        &mut reg,
        16,
        16,
        &mut score,
        &mut pickups,
        &mut sounds,
        &mut texts,
        &mut despawns,
    );
    assert_eq!(reg.list[0].health, 30);
    let frozen = reg.list[0].frozen.expect("the burst applies the slow status");
    assert_eq!(frozen.speed_mult_pct, 50);
    // the second tick does not burst again
    freezing_nova_effect_damage_system(
        &mut novas,
        &mut reg,
        16,
        32,
        &mut score,
        &mut pickups,
        &mut sounds,
        &mut texts,
        &mut despawns,
    );
    assert_eq!(reg.list[0].health, 30);
}

#[test]
fn player_death_ends_the_session_once() {
    let mut phase = AppState::InGame;
    let mut sounds = Vec::new();
    check_player_death_system(0, &mut phase, &mut sounds);
    assert_eq!(phase, AppState::GameOver);
    assert_eq!(sounds, vec![SoundEffect::GameOver]);
    check_player_death_system(0, &mut phase, &mut sounds);
    assert_eq!(sounds.len(), 1);
}

#[test]
fn sim_start_and_play_a_few_frames() {
    let mut sim = Sim::new_sim();
    assert_eq!(sim.phase, AppState::MainMenu);
    // idle in the menu: nothing happens
    sim.tick(&TickInput::idle(), 16);
    assert_eq!(sim.phase, AppState::MainMenu);
    let mut start = TickInput::idle();
    start.start_pressed = true;
    sim.tick(&start, 16);
    assert_eq!(sim.phase, AppState::InGame);
    assert_eq!(sim.game.score, 0);
    // run a couple of seconds of play; the spawn clock brings an enemy in
    let mut frames = 0;
    while frames < 150 {
        sim.tick(&TickInput::idle(), 16);
        frames += 1;
    }
    assert!(sim.enemies.count() >= 1);
    assert_eq!(sim.phase, AppState::InGame);
}
