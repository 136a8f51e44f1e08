//! The player: mutable stat block, aiming, movement, regeneration,
//! experience and leveling, and the invincibility window after a hit.

use vstd::prelude::*;
use crate::geom::{
    advance, advanced, norm_scaled, norm_scaled_spec, Vec2I, DT_LIMIT, VEL_LIMIT,
};
use crate::enemy::EnemyRegistry;
use crate::events::SoundEffect;
use crate::geom::collides;
use crate::resolve::{sub_health, sub_health_spec};
use crate::timer::{Timer, TimerMode, MAX_TIME_MS};

verus! {

pub const INITIAL_PLAYER_MAX_HEALTH: i32 = 100;

/// Collision radius of the player, in milli-units (half the larger sprite
/// dimension).
pub const PLAYER_RADIUS: i64 = 25_000;

/// Base radius within which pickups are collected, in milli-units.
pub const BASE_PICKUP_RADIUS: i64 = 100_000;

/// Length of the post-hit grace window, in milliseconds.
pub const INVINCIBILITY_MS: u64 = 1000;

pub const INITIAL_PLAYER_SPEED: i64 = 250_000;

/// The player's position, health and mutable stat block.  Multiplicative
/// stats are percentages (100 is the base value); additive stats are plain
/// integers.
#[derive(Clone, Copy, PartialEq, Eq, Structural, Debug)]
pub struct Player {
    pub pos: Vec2I,
    pub health: i32,
    pub max_health: i32,
    pub speed: i64,
    pub experience: u64,
    pub current_level_xp: u64,
    pub level: u32,
    pub aim_direction: Vec2I,
    pub invincibility_timer: Timer,
    pub bullet_damage_bonus: i32,
    pub projectile_speed_pct: u32,
    pub projectile_piercing: u32,
    pub xp_gain_pct: u32,
    pub pickup_radius_pct: u32,
    pub additional_projectiles: u32,
    pub health_regen_milli: i64,
    pub regen_accum_milli: i64,
}

impl Player {
    pub open spec fn wf(self) -> bool {
        &&& self.pos.in_world()
        &&& -2_000_000_000 <= self.health <= 1_000_000_000
        &&& 1 <= self.max_health <= 1_000_000_000
        &&& self.health <= self.max_health
        &&& 0 <= self.speed <= VEL_LIMIT
        &&& -1000 <= self.aim_direction.x <= 1000
        &&& -1000 <= self.aim_direction.y <= 1000
        &&& !self.aim_direction.is_zero()
        &&& self.invincibility_timer.wf()
        &&& self.invincibility_timer.mode == TimerMode::Once
        &&& 0 <= self.bullet_damage_bonus <= 900_000
        &&& 100 <= self.projectile_speed_pct <= 100_000
        &&& self.projectile_piercing <= 1_000_000
        &&& 100 <= self.xp_gain_pct <= 10_000
        &&& 100 <= self.pickup_radius_pct <= 100_000
        &&& self.additional_projectiles <= 100
        &&& 0 <= self.health_regen_milli <= 1_000_000
        &&& 0 <= self.regen_accum_milli < 1000
    }

    /// A fresh player at the origin, as a new session starts.
    pub fn new_player() -> (p: Player)
        ensures
            p.wf(),
            p == Player::spec_initial(),
            p.pos == (Vec2I { x: 0, y: 0 }),
            p.health == INITIAL_PLAYER_MAX_HEALTH,
            p.max_health == INITIAL_PLAYER_MAX_HEALTH,
            p.speed == INITIAL_PLAYER_SPEED,
            p.experience == 0,
            p.current_level_xp == 0,
            p.level == 1,
            p.invincibility_timer == Timer::spec_initial_invincibility(),
            p.bullet_damage_bonus == 0,
            p.projectile_speed_pct == 100,
            p.projectile_piercing == 0,
            p.xp_gain_pct == 100,
            p.pickup_radius_pct == 100,
            p.additional_projectiles == 0,
            p.health_regen_milli == 0,
            p.regen_accum_milli == 0,
    {
        Player {
            pos: Vec2I { x: 0, y: 0 },
            health: INITIAL_PLAYER_MAX_HEALTH,
            max_health: INITIAL_PLAYER_MAX_HEALTH,
            speed: INITIAL_PLAYER_SPEED,
            experience: 0,
            current_level_xp: 0,
            level: 1,
            aim_direction: Vec2I { x: 1000, y: 0 },
            invincibility_timer: Timer::new(INVINCIBILITY_MS, TimerMode::Once),
            bullet_damage_bonus: 0,
            projectile_speed_pct: 100,
            projectile_piercing: 0,
            xp_gain_pct: 100,
            pickup_radius_pct: 100,
            additional_projectiles: 0,
            health_regen_milli: 0,
            regen_accum_milli: 0,
        }
    }

    /// Experience needed to clear the current level: a fixed lookup table
    /// for the first ten levels, then an arithmetic extrapolation.
    pub fn experience_to_next_level(&self) -> (r: u64)
        ensures
            r == xp_to_next_level(self.level as int),
    {
        let l = self.level;
        if l == 0 {
            0
        } else if l == 1 {
            100
        } else if l == 2 {
            150
        } else if l == 3 {
            250
        } else if l == 4 {
            400
        } else if l == 5 {
            600
        } else if l == 6 {
            850
        } else if l == 7 {
            1100
        } else if l == 8 {
            1400
        } else if l == 9 {
            1800
        } else if l == 10 {
            2500
        } else {
            2500 + ((l - 10) as u64) * 500
        }
    }

    /// Credit experience, scaled by the gain bonus, and resolve at most one
    /// level-up.  Even when the award crosses several thresholds at once,
    /// the level rises by exactly one and only one leveling transition is
    /// reported; the surplus stays banked and is resolved on the next
    /// award, not retroactively.  Returns whether a level was gained.
    pub fn add_experience(&mut self, amount: u64) -> (leveled: bool)
        requires
            old(self).wf(),
            amount <= 1_000_000_000,
        ensures
            final(self).wf(),
            leveled == (old(self).level > 0 && old(self).level < u32::MAX && sat_add64(
                old(self).current_level_xp as int,
                xp_gained(amount as int, old(self).xp_gain_pct as int),
            ) >= xp_to_next_level(old(self).level as int)),
            final(self).experience == sat_add64(
                old(self).experience as int,
                xp_gained(amount as int, old(self).xp_gain_pct as int),
            ),
            leveled ==> final(self).level == old(self).level + 1 && final(self).current_level_xp
                == sat_add64(
                old(self).current_level_xp as int,
                xp_gained(amount as int, old(self).xp_gain_pct as int),
            ) - xp_to_next_level(old(self).level as int),
            !leveled ==> final(self).level == old(self).level && final(self).current_level_xp
                == sat_add64(
                old(self).current_level_xp as int,
                xp_gained(amount as int, old(self).xp_gain_pct as int),
            ),
            *final(self) == (Player {
                experience: final(self).experience,
                current_level_xp: final(self).current_level_xp,
                level: final(self).level,
                ..*old(self)
            }),
    {
        let pct: u64 = self.xp_gain_pct as u64;
        proof {
            assert(amount * pct <= 10_000_000_000_000) by (nonlinear_arith)
                requires
                    amount <= 1_000_000_000,
                    pct <= 10_000,
            ;
        }
        let gained: u64 = (amount * pct + 50) / 100;
        self.experience = sat_add_u64(self.experience, gained);
        self.current_level_xp = sat_add_u64(self.current_level_xp, gained);
        let needed: u64 = self.experience_to_next_level();
        if self.level > 0 && self.level < u32::MAX && self.current_level_xp >= needed {
            self.current_level_xp = self.current_level_xp - needed;
            self.level = self.level + 1;
            true
        } else {
            false
        }
    }

    /// The pickup radius after the collection-radius bonus.
    pub fn get_effective_pickup_radius(&self) -> (r: i64)
        requires
            self.wf(),
        ensures
            r == BASE_PICKUP_RADIUS * self.pickup_radius_pct / 100,
            0 <= r <= 100_000_000,
    {
        BASE_PICKUP_RADIUS * (self.pickup_radius_pct as i64) / 100
    }
}

impl Player {
    /// The stat block a fresh session starts from.
    pub open spec fn spec_initial() -> Player {
        Player {
            pos: Vec2I { x: 0, y: 0 },
            health: INITIAL_PLAYER_MAX_HEALTH,
            max_health: INITIAL_PLAYER_MAX_HEALTH,
            speed: INITIAL_PLAYER_SPEED,
            experience: 0,
            current_level_xp: 0,
            level: 1,
            aim_direction: Vec2I { x: 1000, y: 0 },
            invincibility_timer: Timer::spec_initial_invincibility(),
            bullet_damage_bonus: 0,
            projectile_speed_pct: 100,
            projectile_piercing: 0,
            xp_gain_pct: 100,
            pickup_radius_pct: 100,
            additional_projectiles: 0,
            health_regen_milli: 0,
            regen_accum_milli: 0,
        }
    }
}

impl Timer {
    /// The invincibility timer a fresh player carries: already expired, so
    /// the first hit lands.
    pub open spec fn spec_initial_invincibility() -> Timer {
        Timer {
            duration_ms: INVINCIBILITY_MS,
            elapsed_ms: 0,
            mode: TimerMode::Once,
            paused: false,
            finished: false,
            just_finished: false,
        }
    }
}

/// Experience credited for a raw award under a gain multiplier in percent,
/// rounded to the nearest whole point.
pub open spec fn xp_gained(amount: int, pct: int) -> int {
    (amount * pct + 50) / 100
}

/// Saturating 64-bit addition: progression counters clamp instead of
/// wrapping.
pub open spec fn sat_add64(a: int, b: int) -> int {
    if a + b > u64::MAX {
        u64::MAX as int
    } else {
        a + b
    }
}

pub fn sat_add_u64(a: u64, b: u64) -> (r: u64)
    ensures
        r == sat_add64(a as int, b as int),
{
    if a > u64::MAX - b {
        u64::MAX
    } else {
        a + b
    }
}

/// XP-to-next-level: table for the first ten levels, then
/// `2500 + 500 * (level - 10)`.  Level zero needs nothing (a guard value;
/// play starts at level one).
pub open spec fn xp_to_next_level(level: int) -> int {
    if level == 0 {
        0
    } else if level == 1 {
        100
    } else if level == 2 {
        150
    } else if level == 3 {
        250
    } else if level == 4 {
        400
    } else if level == 5 {
        600
    } else if level == 6 {
        850
    } else if level == 7 {
        1100
    } else if level == 8 {
        1400
    } else if level == 9 {
        1800
    } else if level == 10 {
        2500
    } else {
        2500 + (level - 10) * 500
    }
}

/// Integrate the player's movement for one tick from a discretized input
/// axis pair (each component −1, 0 or 1).  The velocity is the input
/// direction normalized and scaled to the player's speed; returns it for
/// the aim/visual systems.
pub fn player_movement(p: &mut Player, input_x: i64, input_y: i64, dt_ms: u64) -> (vel: Vec2I)
    requires
        old(p).wf(),
        -1 <= input_x <= 1,
        -1 <= input_y <= 1,
        dt_ms <= DT_LIMIT,
    ensures
        final(p).wf(),
        vel == norm_scaled_spec(
            Vec2I { x: (input_x * 1000) as i64, y: (input_y * 1000) as i64 },
            old(p).speed as int,
        ),
        final(p).pos == advanced(old(p).pos, vel, dt_ms),
        *final(p) == (Player { pos: final(p).pos, ..*old(p) }),
{
    let dir = Vec2I { x: input_x * 1000, y: input_y * 1000 };
    let vel = norm_scaled(dir, p.speed);
    p.pos = advance(p.pos, vel, dt_ms);
    vel
}

/// Re-derive the aim direction from a world-space target point.  A target
/// on top of the player leaves the previous aim unchanged (no snapping to
/// the zero-vector angle).
pub fn player_aiming(p: &mut Player, target: Vec2I)
    requires
        old(p).wf(),
        target.in_world(),
    ensures
        final(p).wf(),
        final(p).aim_direction == {
            let a = norm_scaled_spec(
                Vec2I {
                    x: (target.x - old(p).pos.x) as i64,
                    y: (target.y - old(p).pos.y) as i64,
                },
                1000,
            );
            if a.is_zero() {
                old(p).aim_direction
            } else {
                a
            }
        },
        *final(p) == (Player { aim_direction: final(p).aim_direction, ..*old(p) }),
{
    let d = Vec2I { x: target.x - p.pos.x, y: target.y - p.pos.y };
    let a = norm_scaled(d, 1000);
    if !(a.x == 0 && a.y == 0) {
        p.aim_direction = a;
    }
}

/// Whether regeneration applies this tick: a positive rate, and health
/// strictly between zero and the maximum.
pub open spec fn regen_active(p: Player) -> bool {
    p.health_regen_milli > 0 && 0 < p.health < p.max_health
}

/// Regenerate health at `health_regen_milli` thousandths of a point per
/// second, clamped to max health; the fractional remainder is carried in an
/// accumulator so that slow rates still add up.
pub fn player_health_regeneration_system(p: &mut Player, dt_ms: u64)
    requires
        old(p).wf(),
        dt_ms <= DT_LIMIT,
    ensures
        final(p).wf(),
        !regen_active(*old(p)) ==> *final(p) == *old(p),
        regen_active(*old(p)) ==> {
            let total = old(p).regen_accum_milli + old(p).health_regen_milli * dt_ms;
            let healed = old(p).health + total / 1000;
            &&& final(p).health == if healed > old(p).max_health {
                old(p).max_health as int
            } else {
                healed
            }
            &&& final(p).regen_accum_milli == total % 1000
            &&& *final(p) == (Player {
                health: final(p).health,
                regen_accum_milli: final(p).regen_accum_milli,
                ..*old(p)
            })
        },
{
    if p.health_regen_milli > 0 && p.health > 0 && p.health < p.max_health {
        let rate: i64 = p.health_regen_milli;
        proof {
            assert(0 <= rate * dt_ms <= 100_000_000_000) by (nonlinear_arith)
                requires
                    0 <= rate <= 1_000_000,
                    0 <= dt_ms <= 100_000,
            ;
        }
        let total: i64 = p.regen_accum_milli + rate * (dt_ms as i64);
        let whole: i64 = total / 1000;
        let healed: i64 = (p.health as i64) + whole;
        p.health = if healed > (p.max_health as i64) {
            p.max_health
        } else {
            healed as i32
        };
        p.regen_accum_milli = total % 1000;
    }
}

/// Tick the invincibility window while the player lives and the window is
/// still open.
pub fn player_invincibility_system(p: &mut Player, dt_ms: u64)
    requires
        old(p).wf(),
        dt_ms <= MAX_TIME_MS,
    ensures
        final(p).wf(),
        old(p).health > 0 && !old(p).invincibility_timer.finished ==> *final(p) == (Player {
            invincibility_timer: old(p).invincibility_timer.spec_tick(dt_ms),
            ..*old(p)
        }),
        !(old(p).health > 0 && !old(p).invincibility_timer.finished) ==> *final(p) == *old(p),
{
    if p.health > 0 && !p.invincibility_timer.finished() {
        p.invincibility_timer.tick(dt_ms);
    }
}

/// Contact damage from enemies, gated by the invincibility window.  While
/// the window is open nothing lands; otherwise the first enemy (in registry
/// order) whose circle overlaps the player's deals its contact damage once,
/// the window restarts at its full duration, and a hit sound is emitted —
/// the restarted window blocks every later enemy in the same pass.
pub fn player_enemy_collision_system(
    p: &mut Player,
    enemies: &EnemyRegistry,
    sounds: &mut Vec<SoundEffect>,
)
    requires
        old(p).wf(),
        enemies.wf(),
    ensures
        final(p).wf(),
        !old(p).invincibility_timer.finished ==> *final(p) == *old(p) && final(sounds)@ == old(
            sounds,
        )@,
        old(p).invincibility_timer.finished && (forall|j: int|
            0 <= j < enemies.list@.len() ==> !collides(
                old(p).pos,
                PLAYER_RADIUS as int,
                enemies.list@[j].pos,
                enemies.list@[j].radius as int,
            )) ==> *final(p) == *old(p) && final(sounds)@ == old(sounds)@,
        old(p).invincibility_timer.finished && (exists|j: int|
            0 <= j < enemies.list@.len() && collides(
                old(p).pos,
                PLAYER_RADIUS as int,
                enemies.list@[j].pos,
                enemies.list@[j].radius as int,
            )) ==> (exists|j: int|
            {
                &&& 0 <= j < enemies.list@.len()
                &&& collides(
                    old(p).pos,
                    PLAYER_RADIUS as int,
                    enemies.list@[j].pos,
                    enemies.list@[j].radius as int,
                )
                &&& forall|k: int|
                    0 <= k < j ==> !collides(
                        old(p).pos,
                        PLAYER_RADIUS as int,
                        enemies.list@[k].pos,
                        enemies.list@[k].radius as int,
                    )
                &&& *final(p) == (Player {
                    health: sub_health_spec(
                        old(p).health as int,
                        enemies.list@[j].damage_on_collision as int,
                    ) as i32,
                    invincibility_timer: Timer {
                        elapsed_ms: 0,
                        finished: false,
                        just_finished: false,
                        ..old(p).invincibility_timer
                    },
                    ..*old(p)
                })
                &&& final(sounds)@ == old(sounds)@.push(SoundEffect::PlayerHit)
            }),
{
    if !p.invincibility_timer.finished() {
        return;
    }
    let n: usize = enemies.list.len();
    let mut i: usize = 0;
    while i < n
        invariant
            old(p).wf(),
            enemies.wf(),
            old(p).invincibility_timer.finished,
            *p == *old(p),
            sounds@ == old(sounds)@,
            n == enemies.list@.len(),
            0 <= i <= n,
            forall|k: int|
                0 <= k < i ==> !collides(
                    old(p).pos,
                    PLAYER_RADIUS as int,
                    enemies.list@[k].pos,
                    enemies.list@[k].radius as int,
                ),
        decreases n - i,
    {
        let e = enemies.list[i];
        if crate::geom::circles_collide(p.pos, PLAYER_RADIUS, e.pos, e.radius) {
            sounds.push(SoundEffect::PlayerHit);
            p.health = sub_health(p.health, e.damage_on_collision);
            p.invincibility_timer.reset();
            return;
        }
        i += 1;
    }
}

} // verus!
