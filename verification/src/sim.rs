//! The per-frame simulation orchestrator: one `tick` per rendered frame,
//! driven by the frame's delta time and the frame's discretized input.
//!
//! Systems run in a fixed order each tick — movement, then spawning, then
//! collision, then lifetime and cleanup, then progression — so later stages
//! see what earlier stages wrote.  Despawn requests gathered during the
//! tick are applied once, idempotently, before progression reads the world.

use vstd::prelude::*;
use crate::bullet::{all_bullets_wf, BasicWeapon, Bullet};
use crate::enemy::{
    all_eprojs_wf, EnemyProjectile, EnemyRegistry, ENEMY_CAP,
};
use crate::events::{DamageText, SoundEffect};
use crate::game::{AppState, GameState};
use crate::geom::{Vec2I, DT_LIMIT};
use crate::player::Player;
use crate::resolve::Pickup;
use crate::skills::{
    all_aoes_wf, all_instances_wf, all_novas_wf, all_sprojs_wf, library_wf, ActiveSkillAoEEffect,
    ActiveSkillInstance, FreezingNovaEffect, SkillId, SkillLibrary, SkillProjectile,
    SurvivorBuffEffect,
};
use crate::timer::{Timer, TimerMode};
use crate::upgrades::{OfferedUpgrades, UpgradePool};
use crate::weapons::{all_orbiters_wf, AoeAuraWeapon, Orbiter, OrbitingProjectileWeapon};

verus! {

/// The frame's discretized input: a movement axis pair (each −1, 0 or 1),
/// an optional world-space aim point, an optional skill slot to trigger,
/// and the menu edges.
pub struct TickInput {
    pub move_x: i64,
    pub move_y: i64,
    pub aim_target: Option<Vec2I>,
    pub skill_slot: Option<usize>,
    pub start_pressed: bool,
    pub restart_pressed: bool,
    pub upgrade_choice: Option<usize>,
    pub debug_toggle: bool,
}

impl TickInput {
    pub open spec fn wf(self) -> bool {
        &&& -1 <= self.move_x <= 1
        &&& -1 <= self.move_y <= 1
        &&& match self.aim_target {
            Option::Some(t) => t.in_world(),
            Option::None => true,
        }
    }

    /// A quiet frame: no movement, no presses.
    pub fn idle() -> (r: TickInput)
        ensures
            r.wf(),
            r.move_x == 0 && r.move_y == 0,
            r.aim_target is None && r.skill_slot is None && r.upgrade_choice is None,
            !r.start_pressed && !r.restart_pressed && !r.debug_toggle,
    {
        TickInput {
            move_x: 0,
            move_y: 0,
            aim_target: Option::None,
            skill_slot: Option::None,
            start_pressed: false,
            restart_pressed: false,
            upgrade_choice: Option::None,
            debug_toggle: false,
        }
    }
}

/// Which phase changes one tick may make.
pub open spec fn phase_may_step(a: AppState, b: AppState) -> bool {
    match a {
        AppState::MainMenu => b == AppState::MainMenu || b == AppState::InGame,
        AppState::InGame => b == AppState::InGame || b == AppState::LevelUp || b
            == AppState::GameOver || b == AppState::DebugUpgradeMenu,
        AppState::LevelUp => b == AppState::LevelUp || b == AppState::InGame,
        AppState::GameOver => b == AppState::GameOver || b == AppState::MainMenu,
        AppState::DebugUpgradeMenu => b == AppState::DebugUpgradeMenu || b == AppState::InGame,
    }
}

/// The whole simulation: the session, the player, the weapons, every live
/// entity row, the catalogs, and the per-tick event queues that the
/// presentation layer drains.
pub struct Sim {
    pub phase: AppState,
    pub game: GameState,
    pub spawn_timer: Timer,
    pub max_enemies: u32,
    pub next_entity_id: u64,
    pub now_ms: u64,
    pub player: Player,
    pub weapon: BasicWeapon,
    pub aura: AoeAuraWeapon,
    pub orbit_weapon: OrbitingProjectileWeapon,
    pub orbiters: Vec<Orbiter>,
    pub enemies: EnemyRegistry,
    pub bullets: Vec<Bullet>,
    pub enemy_projectiles: Vec<EnemyProjectile>,
    pub skill_projectiles: Vec<SkillProjectile>,
    pub aoe_effects: Vec<ActiveSkillAoEEffect>,
    pub novas: Vec<FreezingNovaEffect>,
    pub buff: Option<SurvivorBuffEffect>,
    pub skills: Vec<ActiveSkillInstance>,
    pub skill_library: SkillLibrary,
    pub upgrade_pool: UpgradePool,
    pub offered: Option<OfferedUpgrades>,
    pub pickups: Vec<Pickup>,
    pub despawn_queue: Vec<u64>,
    pub sounds: Vec<SoundEffect>,
    pub damage_texts: Vec<DamageText>,
}

impl Sim {
    /// Everything `wf` asks except the drained despawn queue (which fills
    /// during the collision stage of a tick).
    pub open spec fn wf_core(self) -> bool {
        &&& self.game.wf()
        &&& self.spawn_timer.wf()
        &&& self.spawn_timer.mode == TimerMode::Repeating
        &&& self.player.wf()
        &&& self.weapon.wf()
        &&& self.aura.wf()
        &&& self.orbit_weapon.wf()
        &&& all_orbiters_wf(self.orbiters@)
        &&& self.orbiters@.len() <= 3600
        &&& self.enemies.wf()
        &&& self.enemies.list@.len() <= 1_000_000
        &&& (forall|i: int|
            0 <= i < self.enemies.list@.len() ==> (#[trigger] self.enemies.list@[i]).id
                < self.next_entity_id)
        &&& all_bullets_wf(self.bullets@)
        &&& all_eprojs_wf(self.enemy_projectiles@)
        &&& all_sprojs_wf(self.skill_projectiles@)
        &&& all_aoes_wf(self.aoe_effects@)
        &&& all_novas_wf(self.novas@)
        &&& match self.buff {
            Option::Some(b) => b.wf(),
            Option::None => true,
        }
        &&& all_instances_wf(self.skills@)
        &&& library_wf(self.skill_library.skills@)
        &&& self.upgrade_pool.wf()
        &&& crate::resolve::all_pickups_in_world(self.pickups@)
        &&& match self.offered {
            Option::Some(o) => forall|i: int|
                0 <= i < o.choices@.len() ==> (#[trigger] o.choices@[i]).upgrade_type.wf(),
            Option::None => true,
        }
    }

    pub open spec fn wf(self) -> bool {
        self.wf_core() && self.despawn_queue@.len() == 0
    }

    /// A fresh process: main menu, empty world, the catalogs loaded, one
    /// projectile skill equipped.
    pub fn new_sim() -> (r: Sim)
        ensures
            r.wf(),
            r.phase == AppState::MainMenu,
            r.enemies.list@.len() == 0,
            r.bullets@.len() == 0,
            r.game.score == 0,
    {
        let library = crate::skills::populate_skill_library();
        let mut skills: Vec<ActiveSkillInstance> = Vec::new();
        skills.push(ActiveSkillInstance::new(SkillId(1), 2));
        Sim {
            phase: AppState::MainMenu,
            game: GameState::new_session(),
            spawn_timer: Timer::new(crate::game::INITIAL_SPAWN_INTERVAL_MS, TimerMode::Repeating),
            max_enemies: crate::game::INITIAL_MAX_ENEMIES,
            next_entity_id: 1,
            now_ms: 0,
            player: Player::new_player(),
            weapon: BasicWeapon { fire_rate: Timer::new(500, TimerMode::Repeating) },
            aura: Default::default(),
            orbit_weapon: Default::default(),
            orbiters: Vec::new(),
            enemies: EnemyRegistry::new(),
            bullets: Vec::new(),
            enemy_projectiles: Vec::new(),
            skill_projectiles: Vec::new(),
            aoe_effects: Vec::new(),
            novas: Vec::new(),
            buff: Option::None,
            skills,
            skill_library: library,
            upgrade_pool: crate::upgrades::initialize_upgrade_pool(),
            offered: Option::None,
            pickups: Vec::new(),
            despawn_queue: Vec::new(),
            sounds: Vec::new(),
            damage_texts: Vec::new(),
        }
    }

    /// Start or restart a session: the full state reset, and the world rows
    /// cleared.
    fn reset_session(&mut self)
        requires
            old(self).wf(),
        ensures
            final(self).wf(),
            final(self).phase == old(self).phase,
            final(self).game.score == 0,
            final(self).game.wave_number == 1,
            final(self).enemies.list@.len() == 0,
            final(self).player == Player::spec_initial(),
    {
        crate::game::reset_for_new_game_session(
            &mut self.game,
            &mut self.spawn_timer,
            &mut self.max_enemies,
            &mut self.player,
            &mut self.weapon,
            &mut self.aura,
            &mut self.orbit_weapon,
        );
        self.orbiters = Vec::new();
        self.enemies.despawn_all_enemies();
        self.bullets = Vec::new();
        self.enemy_projectiles = Vec::new();
        self.skill_projectiles = Vec::new();
        self.aoe_effects = Vec::new();
        self.novas = Vec::new();
        self.buff = Option::None;
        self.offered = Option::None;
        self.pickups = Vec::new();
        self.despawn_queue = Vec::new();
    }

    /// One simulation tick.  Menu phases wait for their input edge; the
    /// level-up phase waits for a choice and applies it exactly once; play
    /// advances the world in the fixed system order.  The phase moves only
    /// along the state machine's edges, and the despawn queue is always
    /// drained by the end of the tick.
    pub fn tick(&mut self, input: &TickInput, dt_ms: u64)
        requires
            old(self).wf(),
            input.wf(),
            1 <= dt_ms <= DT_LIMIT,
        ensures
            final(self).wf(),
            phase_may_step(old(self).phase, final(self).phase),
            old(self).phase == AppState::MainMenu && !input.start_pressed ==> *final(self)
                == *old(self),
            old(self).phase == AppState::MainMenu && input.start_pressed ==> final(self).phase
                == AppState::InGame && final(self).game.score == 0 && final(self).game.wave_number == 1 && final(self).player == Player::spec_initial(),
            old(self).phase == AppState::GameOver && !input.restart_pressed ==> *final(self)
                == *old(self),
            old(self).phase == AppState::GameOver && input.restart_pressed ==> final(self).phase
                == AppState::MainMenu && final(self).game.score == 0,
            old(self).phase == AppState::DebugUpgradeMenu && !input.debug_toggle ==> *final(self)
                == *old(self),
            old(self).phase == AppState::DebugUpgradeMenu && input.debug_toggle ==> *final(self)
                == (Sim {
                phase: AppState::InGame,
                game: GameState {
                    game_timer: Timer { paused: false, ..old(self).game.game_timer },
                    difficulty_timer: Timer { paused: false, ..old(self).game.difficulty_timer },
                    ..old(self).game
                },
                ..*old(self)
            }),
            old(self).phase == AppState::InGame && input.debug_toggle ==> *final(self) == (Sim {
                phase: AppState::DebugUpgradeMenu,
                game: GameState {
                    game_timer: Timer { paused: true, ..old(self).game.game_timer },
                    difficulty_timer: Timer { paused: true, ..old(self).game.difficulty_timer },
                    ..old(self).game
                },
                ..*old(self)
            }),
            // the in-game tick demonstrably runs the per-frame work: the
            // session time advances, the session clock and the fire-rate
            // clock tick, and the player moves by the frame's input
            old(self).phase == AppState::InGame && !input.debug_toggle ==> {
                &&& final(self).now_ms == crate::player::sat_add64(
                    old(self).now_ms as int,
                    dt_ms as int,
                )
                &&& final(self).weapon.fire_rate == old(self).weapon.fire_rate.spec_tick(dt_ms)
                &&& final(self).player.pos == crate::geom::advanced(
                    old(self).player.pos,
                    crate::geom::norm_scaled_spec(
                        Vec2I { x: (input.move_x * 1000) as i64, y: (input.move_y * 1000) as i64 },
                        old(self).player.speed as int,
                    ),
                    dt_ms,
                )
                &&& final(self).game.game_timer == (Timer {
                    paused: final(self).game.game_timer.paused,
                    ..old(self).game.game_timer.spec_tick(dt_ms)
                })
                &&& (final(self).phase == AppState::LevelUp
                    ==> final(self).game.game_timer.paused && final(self).offered is Some)
            },
            // a level-up choice applies the chosen card's effect exactly
            // once and play resumes; anything else leaves the state alone
            old(self).phase == AppState::LevelUp ==> match input.upgrade_choice {
                Option::Some(c) => match old(self).offered {
                    Option::Some(o) => if c < o.choices@.len() {
                        let ct = o.choices@[c as int].upgrade_type;
                        &&& final(self).player == crate::game::spec_player_after(
                            ct,
                            old(self).player,
                        )
                        &&& final(self).weapon == crate::game::spec_weapon_after(
                            ct,
                            old(self).weapon,
                        )
                        &&& final(self).aura == crate::game::spec_aura_after(ct, old(self).aura)
                        &&& final(self).orbit_weapon == crate::game::spec_orbit_after(
                            ct,
                            old(self).orbit_weapon,
                        )
                        &&& final(self).phase == AppState::InGame
                        &&& final(self).offered is None
                        &&& final(self).sounds@ == old(self).sounds@.push(
                            SoundEffect::UpgradeChosen,
                        )
                    } else {
                        *final(self) == *old(self)
                    },
                    Option::None => *final(self) == *old(self),
                },
                Option::None => *final(self) == *old(self),
            },
    {
        match self.phase {
            AppState::MainMenu => {
                if input.start_pressed {
                    self.reset_session();
                    self.phase = AppState::InGame;
                }
            },
            AppState::GameOver => {
                if input.restart_pressed {
                    self.reset_session();
                    self.phase = AppState::MainMenu;
                }
            },
            AppState::DebugUpgradeMenu => {
                if input.debug_toggle {
                    crate::game::on_enter_ingame_state_actions(&mut self.game);
                    self.phase = AppState::InGame;
                }
            },
            AppState::LevelUp => {
                if let Option::Some(choice) = input.upgrade_choice {
                    let mut chosen: Option<crate::upgrades::UpgradeCard> = Option::None;
                    if let Option::Some(offer) = &self.offered {
                        if choice < offer.choices.len() {
                            chosen = Option::Some(offer.choices[choice].duplicate());
                        }
                    }
                    if let Option::Some(card) = chosen {
                        self.sounds.push(SoundEffect::UpgradeChosen);
                        crate::game::apply_chosen_upgrade(
                            card.upgrade_type,
                            &mut self.player,
                            &mut self.weapon,
                            &mut self.aura,
                            &mut self.orbit_weapon,
                        );
                        self.offered = Option::None;
                        crate::game::on_enter_ingame_state_actions(&mut self.game);
                        self.phase = AppState::InGame;
                    }
                }
            },
            AppState::InGame => {
                if input.debug_toggle {
                    crate::game::on_enter_pause_like_state_actions(&mut self.game);
                    self.phase = AppState::DebugUpgradeMenu;
                } else {
                    self.tick_ingame(input, dt_ms);
                }
            },
        }
    }

    /// One tick of play, in the fixed system order: clocks and movement,
    /// then spawning and casting, then collision, then cleanup and
    /// progression.
    fn tick_ingame(&mut self, input: &TickInput, dt_ms: u64)
        requires
            old(self).wf(),
            old(self).phase == AppState::InGame,
            input.wf(),
            1 <= dt_ms <= DT_LIMIT,
        ensures
            final(self).wf(),
            phase_may_step(AppState::InGame, final(self).phase),
            final(self).now_ms == crate::player::sat_add64(old(self).now_ms as int, dt_ms as int),
            final(self).weapon.fire_rate == old(self).weapon.fire_rate.spec_tick(dt_ms),
            final(self).player.pos == crate::geom::advanced(
                old(self).player.pos,
                crate::geom::norm_scaled_spec(
                    Vec2I { x: (input.move_x * 1000) as i64, y: (input.move_y * 1000) as i64 },
                    old(self).player.speed as int,
                ),
                dt_ms,
            ),
            final(self).game.game_timer == (Timer {
                paused: final(self).game.game_timer.paused,
                ..old(self).game.game_timer.spec_tick(dt_ms)
            }),
            final(self).phase == AppState::LevelUp ==> final(self).game.game_timer.paused
                && final(self).offered is Some,
    {
        self.tick_world(input, dt_ms);
        self.tick_combat(dt_ms);
        self.tick_aftermath(dt_ms);
    }

    /// The movement and spawning stage: session clocks, difficulty, player
    /// and enemy movement, orbiter reconciliation and sweep, projectile
    /// integration, enemy spawning, shooting, skill recharge and casting,
    /// the self-buff, the invincibility window and regeneration.
    #[verifier::rlimit(100)]
    #[verifier::spinoff_prover]
    fn tick_world(&mut self, input: &TickInput, dt_ms: u64)
        requires
            old(self).wf(),
            old(self).phase == AppState::InGame,
            input.wf(),
            1 <= dt_ms <= DT_LIMIT,
        ensures
            final(self).wf(),
            final(self).phase == AppState::InGame,
            final(self).now_ms == crate::player::sat_add64(old(self).now_ms as int, dt_ms as int),
            final(self).weapon.fire_rate == old(self).weapon.fire_rate.spec_tick(dt_ms),
            final(self).player.pos == crate::geom::advanced(
                old(self).player.pos,
                crate::geom::norm_scaled_spec(
                    Vec2I { x: (input.move_x * 1000) as i64, y: (input.move_y * 1000) as i64 },
                    old(self).player.speed as int,
                ),
                dt_ms,
            ),
            final(self).game.game_timer == old(self).game.game_timer.spec_tick(dt_ms),
    {
        self.now_ms = crate::player::sat_add_u64(self.now_ms, dt_ms);
        crate::game::update_game_timer(&mut self.game, dt_ms);
        crate::game::difficulty_scaling_system(
            &mut self.game,
            &mut self.spawn_timer,
            &mut self.max_enemies,
            dt_ms,
        );
        crate::player::player_movement(&mut self.player, input.move_x, input.move_y, dt_ms);
        if let Option::Some(target) = input.aim_target {
            crate::player::player_aiming(&mut self.player, target);
        }
        crate::enemy::enemy_movement_system(&mut self.enemies, self.player.pos, dt_ms);
        crate::weapons::manage_orbiters_system(&mut self.orbiters, &self.orbit_weapon);
        crate::weapons::orbiter_movement_system(&mut self.orbiters, &self.orbit_weapon, dt_ms);
        crate::bullet::projectile_movement_system(&mut self.bullets, dt_ms);
        crate::enemy::enemy_projectile_movement_system(&mut self.enemy_projectiles, dt_ms);
        crate::skills::skill_projectile_movement_system(&mut self.skill_projectiles, dt_ms);
        if self.enemies.list.len() < ENEMY_CAP && self.next_entity_id < u64::MAX {
            crate::enemy::enemy_spawn_system(
                &mut self.enemies,
                &mut self.spawn_timer,
                &mut self.next_entity_id,
                self.max_enemies,
                self.game.wave_number,
                self.player.pos,
                dt_ms,
            );
        }
        crate::bullet::player_shooting_system(
            &self.player,
            &mut self.weapon,
            &mut self.bullets,
            dt_ms,
            &mut self.sounds,
        );
        crate::skills::active_skill_cooldown_recharge_system(&mut self.skills, dt_ms);
        if let Option::Some(slot) = input.skill_slot {
            crate::skills::trigger_skill(
                &mut self.skills,
                &self.skill_library,
                slot,
                self.player.pos,
                self.player.aim_direction,
                &mut self.skill_projectiles,
                &mut self.aoe_effects,
                &mut self.novas,
                &mut self.buff,
            );
        }
        crate::enemy::spitter_shooting_logic(
            &mut self.enemies,
            self.player.pos,
            dt_ms,
            &mut self.enemy_projectiles,
            &mut self.sounds,
        );
        crate::skills::survivor_buff_management_system(&mut self.buff, dt_ms);
        crate::player::player_invincibility_system(&mut self.player, dt_ms);
        crate::player::player_health_regeneration_system(&mut self.player, dt_ms);
    }

    /// The collision and damage-resolution stage: attackers strike in the
    /// fixed order (bullets, skill projectiles, area bursts, novas, the
    /// aura, orbiters, then contact and enemy fire against the player).
    /// Despawn requests pile up in the queue for the cleanup stage.
    #[verifier::rlimit(100)]
    #[verifier::spinoff_prover]
    fn tick_combat(&mut self, dt_ms: u64)
        requires
            old(self).wf(),
            old(self).phase == AppState::InGame,
            1 <= dt_ms <= DT_LIMIT,
        ensures
            final(self).wf_core(),
            final(self).phase == AppState::InGame,
            final(self).now_ms == old(self).now_ms,
            final(self).weapon == old(self).weapon,
            final(self).player.pos == old(self).player.pos,
            final(self).game.game_timer == old(self).game.game_timer,
            final(self).offered == old(self).offered,
    {
        crate::bullet::bullet_collision_system(
            &mut self.bullets,
            &mut self.enemies,
            self.now_ms,
            &mut self.game.score,
            &mut self.pickups,
            &mut self.sounds,
            &mut self.damage_texts,
            &mut self.despawn_queue,
        );
        crate::skills::skill_projectile_collision_system(
            &mut self.skill_projectiles,
            &mut self.enemies,
            self.now_ms,
            &mut self.game.score,
            &mut self.pickups,
            &mut self.sounds,
            &mut self.damage_texts,
            &mut self.despawn_queue,
        );
        crate::skills::active_skill_aoe_system(
            &mut self.aoe_effects,
            &mut self.enemies,
            dt_ms,
            self.now_ms,
            &mut self.game.score,
            &mut self.pickups,
            &mut self.sounds,
            &mut self.damage_texts,
            &mut self.despawn_queue,
        );
        crate::skills::freezing_nova_effect_damage_system(
            &mut self.novas,
            &mut self.enemies,
            dt_ms,
            self.now_ms,
            &mut self.game.score,
            &mut self.pickups,
            &mut self.sounds,
            &mut self.damage_texts,
            &mut self.despawn_queue,
        );
        crate::weapons::aoe_aura_weapon_system(
            &mut self.aura,
            self.player.pos,
            &mut self.enemies,
            dt_ms,
            self.now_ms,
            &mut self.game.score,
            &mut self.pickups,
            &mut self.sounds,
            &mut self.damage_texts,
            &mut self.despawn_queue,
        );
        crate::weapons::orbiter_collision_system(
            &mut self.orbiters,
            &self.orbit_weapon,
            self.player.pos,
            &mut self.enemies,
            dt_ms,
            self.now_ms,
            &mut self.game.score,
            &mut self.pickups,
            &mut self.sounds,
            &mut self.damage_texts,
            &mut self.despawn_queue,
        );
        crate::player::player_enemy_collision_system(
            &mut self.player,
            &self.enemies,
            &mut self.sounds,
        );
        let ghost projs_pre = self.enemy_projectiles@;
        let ghost player_pre = self.player;
        let ghost sounds_pre = self.sounds@;
        crate::enemy::enemy_projectile_collision_system(
            &mut self.enemy_projectiles,
            &mut self.player,
            &mut self.sounds,
        );
        proof {
            crate::enemy::lemma_eprojs_resolved_player_pos(projs_pre, player_pre, sounds_pre);
        }
    }

    /// The cleanup and progression stage: lifetimes tick, expired statuses
    /// fall off, the queued despawns are applied idempotently, pickups are
    /// collected, the experience award resolves at most one level-up (which
    /// pauses the clocks and draws the upgrade offer), and the session ends
    /// when the player's health is gone.
    #[verifier::rlimit(100)]
    #[verifier::spinoff_prover]
    fn tick_aftermath(&mut self, dt_ms: u64)
        requires
            old(self).wf_core(),
            old(self).phase == AppState::InGame,
            1 <= dt_ms <= DT_LIMIT,
        ensures
            final(self).wf(),
            phase_may_step(AppState::InGame, final(self).phase),
            final(self).now_ms == old(self).now_ms,
            final(self).weapon == old(self).weapon,
            final(self).player.pos == old(self).player.pos,
            final(self).game.game_timer == (Timer {
                paused: final(self).game.game_timer.paused,
                ..old(self).game.game_timer
            }),
            final(self).phase == AppState::LevelUp ==> final(self).game.game_timer.paused
                && final(self).offered is Some,
    {
        crate::bullet::bullet_lifetime_system(&mut self.bullets, dt_ms);
        crate::enemy::enemy_projectile_lifetime_system(&mut self.enemy_projectiles, dt_ms);
        crate::skills::skill_projectile_lifetime_system(&mut self.skill_projectiles, dt_ms);
        crate::enemy::freezing_status_system(&mut self.enemies, dt_ms);
        let ghost pre = self.enemies.list@;
        crate::resolve::apply_despawns(&mut self.enemies, &mut self.despawn_queue);
        proof {
            assert forall|i: int|
                0 <= i < self.enemies.list@.len() implies (#[trigger] self.enemies.list@[i]).id
                < self.next_entity_id by {
                assert(pre.contains(self.enemies.list@[i]));
                let j = choose|j: int| 0 <= j < pre.len() && pre[j] == self.enemies.list@[i];
            }
        }
        let xp = crate::game::collect_pickups(&self.player, &mut self.pickups, &mut self.sounds);
        let award: u64 = if xp > 1_000_000_000 {
            1_000_000_000
        } else {
            xp
        };
        let leveled = crate::game::award_experience(
            &mut self.player,
            &mut self.phase,
            award,
            &mut self.sounds,
        );
        if leveled {
            crate::game::on_enter_pause_like_state_actions(&mut self.game);
            let choices = self.upgrade_pool.get_random_upgrades(3);
            self.offered = Option::Some(OfferedUpgrades { choices });
        }
        crate::game::check_player_death_system(
            self.player.health,
            &mut self.phase,
            &mut self.sounds,
        );
        let count = self.enemies.count();
        self.game.enemy_count = if count > 4_000_000_000 {
            4_000_000_000u32
        } else {
            count as u32
        };
    }

    /// Drain the per-tick event queues for the presentation layer.
    pub fn take_events(&mut self) -> (r: (Vec<SoundEffect>, Vec<DamageText>))
        requires
            old(self).wf(),
        ensures
            final(self).wf(),
            r.0@ == old(self).sounds@,
            r.1@ == old(self).damage_texts@,
            final(self).sounds@.len() == 0,
            final(self).damage_texts@.len() == 0,
            *final(self) == (Sim {
                sounds: final(self).sounds,
                damage_texts: final(self).damage_texts,
                ..*old(self)
            }),
    {
        let mut s: Vec<SoundEffect> = Vec::new();
        let mut t: Vec<DamageText> = Vec::new();
        core::mem::swap(&mut s, &mut self.sounds);
        core::mem::swap(&mut t, &mut self.damage_texts);
        (s, t)
    }
}

} // verus!
