//! Session state and the game-phase state machine: wave and difficulty
//! scaling, session reset, pickup collection, experience awards, and the
//! application of a chosen upgrade to the player's stat block.

use vstd::prelude::*;
use crate::bullet::BasicWeapon;
use crate::events::SoundEffect;
use crate::geom::{dist_sq, distance_squared, Vec2I, RADIUS_LIMIT, VEL_LIMIT};
use crate::player::{sat_add64, xp_gained, xp_to_next_level, Player};
use crate::resolve::Pickup;
use crate::timer::{Timer, TimerMode, MAX_TIME_MS};
use crate::upgrades::UpgradeType;
use crate::weapons::{AoeAuraWeapon, OrbitingProjectileWeapon};

verus! {

/// The game phases.  MainMenu and GameOver wait for a start or restart;
/// LevelUp waits for an upgrade choice; DebugUpgradeMenu pauses play.
#[derive(Clone, Copy, PartialEq, Eq, Structural, Debug)]
pub enum AppState {
    MainMenu,
    InGame,
    LevelUp,
    GameOver,
    DebugUpgradeMenu,
}

pub const INITIAL_MAX_ENEMIES: u32 = 20;

pub const MAX_ENEMIES_INCREMENT: u32 = 10;

pub const MAX_ENEMIES_CAP: u32 = 200;

pub const INITIAL_SPAWN_INTERVAL_MS: u64 = 2000;

pub const MIN_SPAWN_INTERVAL_MS: u64 = 300;

pub const DIFFICULTY_INTERVAL_MS: u64 = 30_000;

pub const SESSION_LENGTH_MS: u64 = 3_600_000;

/// Session-wide state: score, wave, and the session and difficulty clocks.
/// Created on session start, reset on restart, one live instance at a time.
pub struct GameState {
    pub score: u32,
    pub wave_number: u32,
    pub enemy_count: u32,
    pub game_timer: Timer,
    pub difficulty_timer: Timer,
}

impl GameState {
    pub open spec fn wf(self) -> bool {
        &&& 1 <= self.wave_number <= 9000
        &&& self.game_timer.wf()
        &&& self.game_timer.mode == TimerMode::Once
        &&& self.difficulty_timer.wf()
        &&& self.difficulty_timer.mode == TimerMode::Repeating
    }

    /// The session state as a fresh session begins.
    pub fn new_session() -> (r: GameState)
        ensures
            r.wf(),
            r.score == 0,
            r.wave_number == 1,
            r.enemy_count == 0,
            r.game_timer == spec_fresh_once(SESSION_LENGTH_MS),
            r.difficulty_timer == crate::bullet::spec_fresh_repeating(DIFFICULTY_INTERVAL_MS),
    {
        GameState {
            score: 0,
            wave_number: 1,
            enemy_count: 0,
            game_timer: Timer::new(SESSION_LENGTH_MS, TimerMode::Once),
            difficulty_timer: Timer::new(DIFFICULTY_INTERVAL_MS, TimerMode::Repeating),
        }
    }
}

/// A fresh one-shot timer of the given duration.
pub open spec fn spec_fresh_once(ms: u64) -> Timer {
    Timer {
        duration_ms: ms,
        elapsed_ms: 0,
        mode: TimerMode::Once,
        paused: false,
        finished: false,
        just_finished: false,
    }
}

/// Full session reset, as on start or restart: score, wave, clocks, spawn
/// pacing, population cap, the player's whole stat block and both unlockable
/// weapons return to their initial values.
pub fn reset_for_new_game_session(
    gs: &mut GameState,
    spawn_timer: &mut Timer,
    max_enemies: &mut u32,
    p: &mut Player,
    weapon: &mut BasicWeapon,
    aura: &mut AoeAuraWeapon,
    orbit: &mut OrbitingProjectileWeapon,
)
    ensures
        final(gs).wf(),
        final(gs).score == 0,
        final(gs).wave_number == 1,
        final(gs).enemy_count == 0,
        final(gs).game_timer == spec_fresh_once(SESSION_LENGTH_MS),
        final(gs).difficulty_timer == crate::bullet::spec_fresh_repeating(DIFFICULTY_INTERVAL_MS),
        *final(spawn_timer) == crate::bullet::spec_fresh_repeating(INITIAL_SPAWN_INTERVAL_MS),
        *final(max_enemies) == INITIAL_MAX_ENEMIES,
        final(p).wf(),
        *final(p) == Player::spec_initial(),
        final(weapon).wf(),
        final(weapon).fire_rate == crate::bullet::spec_fresh_repeating(500),
        final(aura).wf(),
        !final(aura).is_active,
        final(orbit).wf(),
        !final(orbit).is_active,
        final(orbit).num_orbiters == 0,
{
    *gs = GameState::new_session();
    *spawn_timer = Timer::new(INITIAL_SPAWN_INTERVAL_MS, TimerMode::Repeating);
    *max_enemies = INITIAL_MAX_ENEMIES;
    *p = Player::new_player();
    *weapon = BasicWeapon { fire_rate: Timer::new(500, TimerMode::Repeating) };
    *aura = Default::default();
    *orbit = Default::default();
}

/// Resume the session clocks on (re)entering play.
pub fn on_enter_ingame_state_actions(gs: &mut GameState)
    requires
        old(gs).wf(),
    ensures
        final(gs).wf(),
        *final(gs) == (GameState {
            game_timer: Timer { paused: false, ..old(gs).game_timer },
            difficulty_timer: Timer { paused: false, ..old(gs).difficulty_timer },
            ..*old(gs)
        }),
{
    gs.game_timer.unpause();
    gs.difficulty_timer.unpause();
}

/// Pause the session clocks on leaving play (level-up choice, menus).
pub fn on_enter_pause_like_state_actions(gs: &mut GameState)
    requires
        old(gs).wf(),
    ensures
        final(gs).wf(),
        *final(gs) == (GameState {
            game_timer: Timer { paused: true, ..old(gs).game_timer },
            difficulty_timer: Timer { paused: true, ..old(gs).difficulty_timer },
            ..*old(gs)
        }),
{
    gs.game_timer.pause();
    gs.difficulty_timer.pause();
}

/// Advance the session clock (a paused clock holds still).
pub fn update_game_timer(gs: &mut GameState, dt_ms: u64)
    requires
        old(gs).wf(),
        dt_ms <= MAX_TIME_MS,
    ensures
        final(gs).wf(),
        *final(gs) == (GameState {
            game_timer: old(gs).game_timer.spec_tick(dt_ms),
            ..*old(gs)
        }),
{
    gs.game_timer.tick(dt_ms);
}

/// A value reduced to `100 - pct` percent, floored.
pub open spec fn pct_down_floor(v: int, pct: int, lo: int) -> int {
    let n = v * (100 - pct) / 100;
    if n < lo {
        lo
    } else {
        n
    }
}

/// A value raised by `pct` percent, capped.
pub open spec fn pct_up_cap(v: int, pct: int, hi: int) -> int {
    let n = v * (100 + pct) / 100;
    if n > hi {
        hi
    } else {
        n
    }
}

/// A sum, capped.
pub open spec fn add_cap(v: int, d: int, hi: int) -> int {
    if v + d > hi {
        hi
    } else {
        v + d
    }
}

/// Advance the difficulty clock; on each of its edges, one difficulty step:
/// the wave number rises, the enemy population cap grows by a fixed
/// increment up to its maximum, and the spawn interval shrinks by a fixed
/// decay factor down to its floor.
pub fn difficulty_scaling_system(
    gs: &mut GameState,
    spawn_timer: &mut Timer,
    max_enemies: &mut u32,
    dt_ms: u64,
)
    requires
        old(gs).wf(),
        old(spawn_timer).wf(),
        dt_ms <= MAX_TIME_MS,
    ensures
        final(gs).wf(),
        final(spawn_timer).wf(),
        final(spawn_timer).mode == old(spawn_timer).mode,
        old(gs).difficulty_timer.paused ==> *final(gs) == *old(gs) && *final(spawn_timer) == *old(spawn_timer) && *final(max_enemies) == *old(max_enemies),
        !old(gs).difficulty_timer.paused ==> {
            let t2 = old(gs).difficulty_timer.spec_tick(dt_ms);
            &&& final(gs).difficulty_timer == t2
            &&& (!t2.just_finished ==> final(gs).wave_number == old(gs).wave_number && *final(spawn_timer) == *old(spawn_timer) && *final(max_enemies) == *old(max_enemies))
            &&& (t2.just_finished ==> {
                &&& final(gs).wave_number == add_cap(old(gs).wave_number as int, 1, 9000)
                &&& *final(max_enemies) == add_cap(
                    INITIAL_MAX_ENEMIES as int,
                    (final(gs).wave_number - 1) * MAX_ENEMIES_INCREMENT,
                    MAX_ENEMIES_CAP as int,
                )
                &&& final(spawn_timer).duration_ms == pct_down_floor(
                    old(spawn_timer).duration_ms as int,
                    10,
                    MIN_SPAWN_INTERVAL_MS as int,
                )
            })
            &&& final(gs).score == old(gs).score
            &&& final(gs).enemy_count == old(gs).enemy_count
            &&& final(gs).game_timer == old(gs).game_timer
        },
{
    if gs.difficulty_timer.paused {
        return;
    }
    gs.difficulty_timer.tick(dt_ms);
    if gs.difficulty_timer.just_finished() {
        if gs.wave_number < 9000 {
            gs.wave_number = gs.wave_number + 1;
        }
        let grown: u64 = (INITIAL_MAX_ENEMIES as u64) + ((gs.wave_number - 1) as u64)
            * (MAX_ENEMIES_INCREMENT as u64);
        *max_enemies = if grown > (MAX_ENEMIES_CAP as u64) {
            MAX_ENEMIES_CAP
        } else {
            grown as u32
        };
        let cur: u64 = spawn_timer.duration_ms;
        let shrunk: u64 = cur * 90 / 100;
        let nd: u64 = if shrunk < MIN_SPAWN_INTERVAL_MS {
            MIN_SPAWN_INTERVAL_MS
        } else {
            shrunk
        };
        spawn_timer.set_duration(nd);
    }
}

/// When the player's health reaches zero during play, the session ends:
/// the phase moves to GameOver and a game-over sound is emitted, exactly
/// once (later calls see the changed phase).
pub fn check_player_death_system(
    health: i32,
    phase: &mut AppState,
    sounds: &mut Vec<SoundEffect>,
)
    ensures
        health <= 0 && *old(phase) == AppState::InGame ==> *final(phase) == AppState::GameOver
            && final(sounds)@ == old(sounds)@.push(SoundEffect::GameOver),
        !(health <= 0 && *old(phase) == AppState::InGame) ==> *final(phase) == *old(phase)
            && final(sounds)@ == old(sounds)@,
{
    if health <= 0 && *phase == AppState::InGame {
        sounds.push(SoundEffect::GameOver);
        *phase = AppState::GameOver;
    }
}

/// Whether a pickup lies within collection range of the player.
pub open spec fn in_pickup_range(ppos: Vec2I, radius: int, pk: Pickup) -> bool {
    dist_sq(pk.pos, ppos) < radius * radius
}

/// One collection pass: the pickups left lying, the experience gathered
/// (saturating), and a collect sound per pickup taken.
pub open spec fn collect_fold(s: Seq<Pickup>, ppos: Vec2I, radius: int, sounds: Seq<SoundEffect>) -> (
    Seq<Pickup>,
    int,
    Seq<SoundEffect>,
)
    decreases s.len(),
{
    if s.len() == 0 {
        (Seq::empty(), 0int, sounds)
    } else {
        let prev = collect_fold(s.drop_last(), ppos, radius, sounds);
        if in_pickup_range(ppos, radius, s.last()) {
            (prev.0, sat_add64(prev.1, s.last().xp_value as int), prev.2.push(
                SoundEffect::XpCollect,
            ))
        } else {
            (prev.0.push(s.last()), prev.1, prev.2)
        }
    }
}

/// Collect every pickup within the player's effective pickup radius:
/// collected pickups vanish, their experience is summed (saturating) and
/// returned, and one collect sound is emitted per pickup.
pub fn collect_pickups(
    p: &Player,
    pickups: &mut Vec<Pickup>,
    sounds: &mut Vec<SoundEffect>,
) -> (xp: u64)
    requires
        p.wf(),
        crate::resolve::all_pickups_in_world(old(pickups)@),
    ensures
        ({
            let r = collect_fold(
                old(pickups)@,
                p.pos,
                p.pickup_radius_pct as int * crate::player::BASE_PICKUP_RADIUS as int / 100,
                old(sounds)@,
            );
            &&& final(pickups)@ == r.0
            &&& xp == r.1
            &&& final(sounds)@ == r.2
        }),
        crate::resolve::all_pickups_in_world(final(pickups)@),
{
    let radius: i64 = p.get_effective_pickup_radius();
    proof {
        assert(p.pickup_radius_pct as int * crate::player::BASE_PICKUP_RADIUS as int / 100
            == crate::player::BASE_PICKUP_RADIUS as int * p.pickup_radius_pct as int / 100)
            by (nonlinear_arith);
        assert(0 <= radius * radius <= 10_000_000_000_000_000) by (nonlinear_arith)
            requires
                0 <= radius <= 100_000_000,
        ;
    }
    let r2: i64 = radius * radius;
    let n: usize = pickups.len();
    let mut kept: Vec<Pickup> = Vec::new();
    let mut xp: u64 = 0;
    let mut i: usize = 0;
    proof {
        assert(old(pickups)@.take(0) =~= Seq::<Pickup>::empty());
    }
    while i < n
        invariant
            p.wf(),
            crate::resolve::all_pickups_in_world(old(pickups)@),
            0 <= i <= n,
            n == old(pickups)@.len(),
            pickups@ == old(pickups)@,
            r2 == radius * radius,
            radius == p.pickup_radius_pct as int * crate::player::BASE_PICKUP_RADIUS as int / 100,
            forall|m: int| 0 <= m < kept@.len() ==> (#[trigger] kept@[m]).pos.in_world(),
            ({
                let r = collect_fold(old(pickups)@.take(i as int), p.pos, radius as int, old(sounds)@);
                &&& kept@ == r.0
                &&& xp == r.1
                &&& sounds@ == r.2
            }),
        decreases n - i,
    {
        proof {
            assert(old(pickups)@.take(i as int + 1).drop_last() =~= old(pickups)@.take(i as int));
            assert(old(pickups)@.take(i as int + 1).last() == old(pickups)@[i as int]);
        }
        let pk = pickups[i];
        let d2: i64 = distance_squared(pk.pos, p.pos);
        if d2 < r2 {
            sounds.push(SoundEffect::XpCollect);
            xp = crate::player::sat_add_u64(xp, pk.xp_value);
        } else {
            kept.push(pk);
        }
        i += 1;
    }
    proof {
        assert(old(pickups)@.take(n as int) =~= old(pickups)@);
    }
    *pickups = kept;
    xp
}

/// Credit an experience award and resolve its leveling consequence: on a
/// level gain the phase moves to the level-up choice and a level-up sound is
/// emitted — exactly once per award, even when the award crosses several
/// thresholds (the preserved design quirk: the surplus waits for the next
/// award).
pub fn award_experience(
    p: &mut Player,
    phase: &mut AppState,
    amount: u64,
    sounds: &mut Vec<SoundEffect>,
) -> (leveled: bool)
    requires
        old(p).wf(),
        amount <= 1_000_000_000,
    ensures
        final(p).wf(),
        leveled == (old(p).level > 0 && old(p).level < u32::MAX && sat_add64(
            old(p).current_level_xp as int,
            xp_gained(amount as int, old(p).xp_gain_pct as int),
        ) >= xp_to_next_level(old(p).level as int)),
        leveled ==> final(p).level == old(p).level + 1 && *final(phase) == AppState::LevelUp
            && final(sounds)@ == old(sounds)@.push(SoundEffect::LevelUp),
        !leveled ==> final(p).level == old(p).level && *final(phase) == *old(phase) && final(sounds)@ == old(sounds)@,
        *final(p) == (Player {
            experience: final(p).experience,
            current_level_xp: final(p).current_level_xp,
            level: final(p).level,
            ..*old(p)
        }),
{
    let leveled = p.add_experience(amount);
    if leveled {
        sounds.push(SoundEffect::LevelUp);
        *phase = AppState::LevelUp;
    }
    leveled
}

/// A repeating timer after its period changes: the accumulator is clamped
/// into the new range and the finished flag recomputed (as `set_duration`
/// states).
pub open spec fn timer_with_duration(t: Timer, nd: int) -> Timer {
    Timer {
        duration_ms: nd as u64,
        elapsed_ms: if t.elapsed_ms <= nd {
            t.elapsed_ms
        } else {
            nd as u64
        },
        finished: t.elapsed_ms >= nd,
        ..t
    }
}

/// The player's stat block after an upgrade: exactly one stat changes (in
/// percent for multiplicative bonuses), saturating at its capacity; cards
/// aimed elsewhere leave it alone.
pub open spec fn spec_player_after(card_type: UpgradeType, p: Player) -> Player {
    match card_type {
        UpgradeType::PlayerSpeed(pct) => Player {
            speed: pct_up_cap(p.speed as int, pct as int, VEL_LIMIT as int) as i64,
            ..p
        },
        UpgradeType::MaxHealth(amount) => Player {
            max_health: add_cap(p.max_health as int, amount as int, 1_000_000_000) as i32,
            health: {
                let nm = add_cap(p.max_health as int, amount as int, 1_000_000_000);
                let nh = p.health + amount;
                (if nh > nm {
                    nm
                } else {
                    nh
                }) as i32
            },
            ..p
        },
        UpgradeType::BulletDamage(bonus) => Player {
            bullet_damage_bonus: add_cap(p.bullet_damage_bonus as int, bonus as int, 900_000) as i32,
            ..p
        },
        UpgradeType::ProjectileSpeed(pct) => Player {
            projectile_speed_pct: pct_up_cap(
                p.projectile_speed_pct as int,
                pct as int,
                100_000,
            ) as u32,
            ..p
        },
        UpgradeType::ProjectilePiercing(amount) => Player {
            projectile_piercing: add_cap(
                p.projectile_piercing as int,
                amount as int,
                1_000_000,
            ) as u32,
            ..p
        },
        UpgradeType::XPGainMultiplier(pct) => Player {
            xp_gain_pct: pct_up_cap(p.xp_gain_pct as int, pct as int, 10_000) as u32,
            ..p
        },
        UpgradeType::PickupRadiusIncrease(pct) => Player {
            pickup_radius_pct: pct_up_cap(p.pickup_radius_pct as int, pct as int, 100_000) as u32,
            ..p
        },
        UpgradeType::IncreaseProjectileCount(amount) => Player {
            additional_projectiles: add_cap(
                p.additional_projectiles as int,
                amount as int,
                100,
            ) as u32,
            ..p
        },
        UpgradeType::HealthRegeneration(milli) => Player {
            health_regen_milli: add_cap(p.health_regen_milli as int, milli as int, 1_000_000) as i64,
            ..p
        },
        _ => p,
    }
}

/// The basic weapon after an upgrade: only a fire-rate card touches it.
pub open spec fn spec_weapon_after(card_type: UpgradeType, w: BasicWeapon) -> BasicWeapon {
    match card_type {
        UpgradeType::FireRate(pct) => BasicWeapon {
            fire_rate: timer_with_duration(
                w.fire_rate,
                pct_down_floor(w.fire_rate.duration_ms as int, pct as int, 50),
            ),
        },
        _ => w,
    }
}

/// The aura weapon after an upgrade: its unlock activates it (or, once
/// active, grows it); its other cards apply only while it is active.
pub open spec fn spec_aura_after(card_type: UpgradeType, aura: AoeAuraWeapon) -> AoeAuraWeapon {
    match card_type {
        UpgradeType::UnlockAoeAuraWeapon => if !aura.is_active {
            AoeAuraWeapon { is_active: true, ..aura }
        } else {
            AoeAuraWeapon {
                base_damage_per_tick: add_cap(aura.base_damage_per_tick as int, 1, 1_000_000) as i32,
                current_radius: pct_up_cap(
                    aura.current_radius as int,
                    10,
                    RADIUS_LIMIT as int,
                ) as i64,
                ..aura
            }
        },
        UpgradeType::IncreaseAoeAuraRadius(pct) => if aura.is_active {
            AoeAuraWeapon {
                current_radius: pct_up_cap(
                    aura.current_radius as int,
                    pct as int,
                    RADIUS_LIMIT as int,
                ) as i64,
                ..aura
            }
        } else {
            aura
        },
        UpgradeType::IncreaseAoeAuraDamage(amount) => if aura.is_active {
            AoeAuraWeapon {
                base_damage_per_tick: add_cap(
                    aura.base_damage_per_tick as int,
                    amount as int,
                    1_000_000,
                ) as i32,
                ..aura
            }
        } else {
            aura
        },
        UpgradeType::DecreaseAoeAuraTickRate(pct) => if aura.is_active {
            AoeAuraWeapon {
                damage_tick_timer: timer_with_duration(
                    aura.damage_tick_timer,
                    pct_down_floor(aura.damage_tick_timer.duration_ms as int, pct as int, 100),
                ),
                ..aura
            }
        } else {
            aura
        },
        _ => aura,
    }
}

/// The orbiting weapon after an upgrade: its unlock activates it with at
/// least two orbiters (or, once active, grows it); its other cards apply
/// only while it is active.
pub open spec fn spec_orbit_after(
    card_type: UpgradeType,
    orbit: OrbitingProjectileWeapon,
) -> OrbitingProjectileWeapon {
    match card_type {
        UpgradeType::UnlockOrbitingSeeds => if !orbit.is_active {
            OrbitingProjectileWeapon {
                is_active: true,
                num_orbiters: if orbit.num_orbiters < 2 {
                    2u32
                } else {
                    orbit.num_orbiters
                },
                ..orbit
            }
        } else {
            OrbitingProjectileWeapon {
                num_orbiters: add_cap(orbit.num_orbiters as int, 1, 3600) as u32,
                damage_per_hit: add_cap(orbit.damage_per_hit as int, 1, 1_000_000) as i32,
                ..orbit
            }
        },
        UpgradeType::IncreaseOrbiterCount(amount) => if orbit.is_active {
            OrbitingProjectileWeapon {
                num_orbiters: add_cap(orbit.num_orbiters as int, amount as int, 3600) as u32,
                ..orbit
            }
        } else {
            orbit
        },
        UpgradeType::IncreaseOrbiterDamage(amount) => if orbit.is_active {
            OrbitingProjectileWeapon {
                damage_per_hit: add_cap(
                    orbit.damage_per_hit as int,
                    amount as int,
                    1_000_000,
                ) as i32,
                ..orbit
            }
        } else {
            orbit
        },
        UpgradeType::IncreaseOrbiterRadius(mu) => if orbit.is_active {
            OrbitingProjectileWeapon {
                orbit_radius: add_cap(orbit.orbit_radius as int, mu as int, RADIUS_LIMIT as int) as i64,
                ..orbit
            }
        } else {
            orbit
        },
        UpgradeType::IncreaseOrbiterRotationSpeed(ddps) => if orbit.is_active {
            OrbitingProjectileWeapon {
                rotation_speed_ddps: add_cap(
                    orbit.rotation_speed_ddps as int,
                    ddps as int,
                    36_000_000,
                ) as u32,
                ..orbit
            }
        } else {
            orbit
        },
        _ => orbit,
    }
}

/// Apply a chosen upgrade's effect exactly once to the player's mutable
/// stat block or the matching weapon, as the `spec_..._after` functions state.
#[verifier::rlimit(100)]
#[verifier::spinoff_prover]
pub fn apply_chosen_upgrade(
    card_type: UpgradeType,
    p: &mut Player,
    weapon: &mut BasicWeapon,
    aura: &mut AoeAuraWeapon,
    orbit: &mut OrbitingProjectileWeapon,
)
    requires
        card_type.wf(),
        old(p).wf(),
        old(weapon).wf(),
        old(aura).wf(),
        old(orbit).wf(),
    ensures
        final(p).wf(),
        final(weapon).wf(),
        final(aura).wf(),
        final(orbit).wf(),
        *final(p) == spec_player_after(card_type, *old(p)),
        *final(weapon) == spec_weapon_after(card_type, *old(weapon)),
        *final(aura) == spec_aura_after(card_type, *old(aura)),
        *final(orbit) == spec_orbit_after(card_type, *old(orbit)),
{
    match card_type {
        UpgradeType::PlayerSpeed(pct) => {
            proof {
                lemma_pct_up_bounds(p.speed as int, pct as int);
            }
            let grown: i64 = p.speed * ((100 + pct) as i64) / 100;
            p.speed = if grown > VEL_LIMIT {
                VEL_LIMIT
            } else {
                grown
            };
        },
        UpgradeType::MaxHealth(amount) => {
            let nm: i64 = (p.max_health as i64) + (amount as i64);
            p.max_health = if nm > 1_000_000_000 {
                1_000_000_000
            } else {
                nm as i32
            };
            let nh: i64 = (p.health as i64) + (amount as i64);
            p.health = if nh > (p.max_health as i64) {
                p.max_health
            } else {
                nh as i32
            };
        },
        UpgradeType::BulletDamage(bonus) => {
            let nb: i64 = (p.bullet_damage_bonus as i64) + (bonus as i64);
            p.bullet_damage_bonus = if nb > 900_000 {
                900_000
            } else {
                nb as i32
            };
        },
        UpgradeType::FireRate(pct) => {
            let cur: u64 = weapon.fire_rate.duration_ms;
            proof {
                lemma_pct_down_bounds(cur as int, pct as int);
            }
            let shrunk: u64 = cur * ((100 - pct) as u64) / 100;
            let nd: u64 = if shrunk < 50 {
                50
            } else {
                shrunk
            };
            weapon.fire_rate.set_duration(nd);
        },
        UpgradeType::ProjectileSpeed(pct) => {
            proof {
                lemma_pct_up_bounds(p.projectile_speed_pct as int, pct as int);
            }
            let grown: u64 = (p.projectile_speed_pct as u64) * ((100 + pct) as u64) / 100;
            p.projectile_speed_pct = if grown > 100_000 {
                100_000
            } else {
                grown as u32
            };
        },
        UpgradeType::ProjectilePiercing(amount) => {
            let na: u64 = (p.projectile_piercing as u64) + (amount as u64);
            p.projectile_piercing = if na > 1_000_000 {
                1_000_000
            } else {
                na as u32
            };
        },
        UpgradeType::XPGainMultiplier(pct) => {
            proof {
                lemma_pct_up_bounds(p.xp_gain_pct as int, pct as int);
            }
            let grown: u64 = (p.xp_gain_pct as u64) * ((100 + pct) as u64) / 100;
            p.xp_gain_pct = if grown > 10_000 {
                10_000
            } else {
                grown as u32
            };
        },
        UpgradeType::PickupRadiusIncrease(pct) => {
            proof {
                lemma_pct_up_bounds(p.pickup_radius_pct as int, pct as int);
            }
            let grown: u64 = (p.pickup_radius_pct as u64) * ((100 + pct) as u64) / 100;
            p.pickup_radius_pct = if grown > 100_000 {
                100_000
            } else {
                grown as u32
            };
        },
        UpgradeType::IncreaseProjectileCount(amount) => {
            let na: u64 = (p.additional_projectiles as u64) + (amount as u64);
            p.additional_projectiles = if na > 100 {
                100
            } else {
                na as u32
            };
        },
        UpgradeType::UnlockAoeAuraWeapon => {
            if !aura.is_active {
                aura.is_active = true;
            } else {
                let nd: i64 = (aura.base_damage_per_tick as i64) + 1;
                aura.base_damage_per_tick = if nd > 1_000_000 {
                    1_000_000
                } else {
                    nd as i32
                };
                proof {
                    lemma_pct_up_bounds(aura.current_radius as int, 10);
                }
                let grown: i64 = aura.current_radius * 110 / 100;
                aura.current_radius = if grown > RADIUS_LIMIT {
                    RADIUS_LIMIT
                } else {
                    grown
                };
            }
        },
        UpgradeType::IncreaseAoeAuraRadius(pct) => {
            if aura.is_active {
                proof {
                    lemma_pct_up_bounds(aura.current_radius as int, pct as int);
                }
                let grown: i64 = aura.current_radius * ((100 + pct) as i64) / 100;
                aura.current_radius = if grown > RADIUS_LIMIT {
                    RADIUS_LIMIT
                } else {
                    grown
                };
            }
        },
        UpgradeType::IncreaseAoeAuraDamage(amount) => {
            if aura.is_active {
                let nd: i64 = (aura.base_damage_per_tick as i64) + (amount as i64);
                aura.base_damage_per_tick = if nd > 1_000_000 {
                    1_000_000
                } else {
                    nd as i32
                };
            }
        },
        UpgradeType::DecreaseAoeAuraTickRate(pct) => {
            if aura.is_active {
                let cur: u64 = aura.damage_tick_timer.duration_ms;
                proof {
                    lemma_pct_down_bounds(cur as int, pct as int);
                }
                let shrunk: u64 = cur * ((100 - pct) as u64) / 100;
                let nd: u64 = if shrunk < 100 {
                    100
                } else {
                    shrunk
                };
                aura.damage_tick_timer.set_duration(nd);
            }
        },
        UpgradeType::HealthRegeneration(milli) => {
            let nr: i64 = p.health_regen_milli + milli;
            p.health_regen_milli = if nr > 1_000_000 {
                1_000_000
            } else {
                nr
            };
        },
        UpgradeType::UnlockOrbitingSeeds => {
            if !orbit.is_active {
                orbit.is_active = true;
                if orbit.num_orbiters < 2 {
                    orbit.num_orbiters = 2;
                }
            } else {
                let nn: u64 = (orbit.num_orbiters as u64) + 1;
                orbit.num_orbiters = if nn > 3600 {
                    3600
                } else {
                    nn as u32
                };
                let nd: i64 = (orbit.damage_per_hit as i64) + 1;
                orbit.damage_per_hit = if nd > 1_000_000 {
                    1_000_000
                } else {
                    nd as i32
                };
            }
        },
        UpgradeType::IncreaseOrbiterCount(amount) => {
            if orbit.is_active {
                let nn: u64 = (orbit.num_orbiters as u64) + (amount as u64);
                orbit.num_orbiters = if nn > 3600 {
                    3600
                } else {
                    nn as u32
                };
            }
        },
        UpgradeType::IncreaseOrbiterDamage(amount) => {
            if orbit.is_active {
                let nd: i64 = (orbit.damage_per_hit as i64) + (amount as i64);
                orbit.damage_per_hit = if nd > 1_000_000 {
                    1_000_000
                } else {
                    nd as i32
                };
            }
        },
        UpgradeType::IncreaseOrbiterRadius(mu) => {
            if orbit.is_active {
                let nr: i64 = orbit.orbit_radius + mu;
                orbit.orbit_radius = if nr > RADIUS_LIMIT {
                    RADIUS_LIMIT
                } else {
                    nr
                };
            }
        },
        UpgradeType::IncreaseOrbiterRotationSpeed(ddps) => {
            if orbit.is_active {
                let ns: u64 = (orbit.rotation_speed_ddps as u64) + (ddps as u64);
                orbit.rotation_speed_ddps = if ns > 36_000_000 {
                    36_000_000
                } else {
                    ns as u32
                };
            }
        },
    }
}

/// A percent raise of a bounded nonnegative value stays within a safe
/// machine range.
proof fn lemma_pct_up_bounds(v: int, pct: int)
    requires
        0 <= v <= 1_000_000_000_000,
        0 <= pct <= 1000,
    ensures
        0 <= v * (100 + pct) <= 1_100_000_000_000_000,
        v <= v * (100 + pct) / 100 <= 11_000_000_000_000,
{
    assert(0 <= v * (100 + pct) <= 1_100_000_000_000_000 && v * 100 <= v * (100 + pct))
        by (nonlinear_arith)
        requires
            0 <= v <= 1_000_000_000_000,
            0 <= pct <= 1000,
    ;
    assert(v <= v * (100 + pct) / 100 <= 11_000_000_000_000) by (nonlinear_arith)
        requires
            0 <= v * (100 + pct) <= 1_100_000_000_000_000,
            v * 100 <= v * (100 + pct),
            0 <= v,
    ;
}

/// A percent cut of a bounded nonnegative value stays within a safe machine
/// range and never grows.
proof fn lemma_pct_down_bounds(v: int, pct: int)
    requires
        0 <= v <= 1_000_000_000_000,
        0 <= pct <= 99,
    ensures
        0 <= v * (100 - pct) <= 100_000_000_000_000,
        0 <= v * (100 - pct) / 100 <= v,
{
    assert(0 <= v * (100 - pct) <= 100_000_000_000_000) by (nonlinear_arith)
        requires
            0 <= v <= 1_000_000_000_000,
            0 <= pct <= 99,
    ;
    assert(0 <= v * (100 - pct) / 100 <= v) by (nonlinear_arith)
        requires
            0 <= v <= 1_000_000_000_000,
            0 <= pct <= 99,
    ;
}

} // verus!
