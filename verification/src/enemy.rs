//! Enemies: archetypes, wave scaling, and the spatial registry that maps an
//! entity id to position, radius, health and type tag.
//!
//! Despawning is idempotent: the first request for an id removes the entity,
//! a second request for the same id is a no-op.

use vstd::prelude::*;
use crate::events::SoundEffect;
use crate::geom::{
    advance, advanced, circles_collide, clamp_coord, collides, dist_sq, distance_squared,
    norm_scaled, norm_scaled_spec, orbit_offset, orbit_offset_spec, Vec2I, COORD_LIMIT, DT_LIMIT,
    RADIUS_LIMIT, VEL_LIMIT,
};
use crate::player::{Player, PLAYER_RADIUS};
use crate::resolve::{sub_health, sub_health_spec};
use crate::rng::{rand_range_u32, rand_ratio};
use crate::timer::{Timer, TimerMode, MAX_TIME_MS};

verus! {

/// Enemy archetype tag.
#[derive(Clone, Copy, PartialEq, Eq, Structural, Debug)]
pub enum EnemyType {
    Grunt,
    Spitter,
    Tank,
}

/// Timed movement-slow status (applied by the freezing nova).  While
/// present, the enemy's effective speed is its base speed scaled by
/// `speed_mult_pct` percent.
#[derive(Clone, Copy, PartialEq, Eq, Structural, Debug)]
pub struct Frozen {
    pub timer: Timer,
    pub speed_mult_pct: u32,
}

/// State of a ranged enemy: it stops and shoots when the player is within
/// `shooting_range` milli-units.
#[derive(Clone, Copy, PartialEq, Eq, Structural, Debug)]
pub struct SpitterBehavior {
    pub shooting_range: i64,
    pub fire_timer: Timer,
    pub projectile_speed: i64,
    pub projectile_damage: i32,
}

/// One live enemy: its id, circular hit shape, health pool and archetype.
/// Health is signed: it may go negative momentarily (overkill) before the
/// death handler despawns the enemy in the same tick.
#[derive(Clone, Copy, PartialEq, Eq, Structural, Debug)]
pub struct Enemy {
    pub id: u64,
    pub pos: Vec2I,
    pub radius: i64,
    pub health: i32,
    pub damage_on_collision: i32,
    pub speed: i64,
    pub enemy_type: EnemyType,
    pub frozen: Option<Frozen>,
    pub spitter: Option<SpitterBehavior>,
}

impl Enemy {
    pub open spec fn wf(self) -> bool {
        &&& self.pos.in_world()
        &&& 0 <= self.radius <= RADIUS_LIMIT
        &&& 0 <= self.speed <= VEL_LIMIT
        &&& -2_000_000_000 <= self.health <= 1_000_000_000
        &&& 0 <= self.damage_on_collision <= 1_000_000
        &&& match self.frozen {
            Option::Some(f) => f.timer.wf() && f.speed_mult_pct <= 100,
            Option::None => true,
        }
        &&& match self.spitter {
            Option::Some(sp) => {
                &&& sp.fire_timer.wf()
                &&& 0 <= sp.shooting_range <= COORD_LIMIT
                &&& 0 <= sp.projectile_speed <= VEL_LIMIT
                &&& 0 <= sp.projectile_damage <= 1_000_000
            },
            Option::None => true,
        }
    }
}

/// Per-archetype tunables, scaled by the wave multiplier (in percent: 100
/// is wave one).  Health scales linearly with the multiplier and never drops
/// below one; speed gains a fixed amount per extra multiplier point.
#[derive(Clone, Copy, PartialEq, Eq, Structural, Debug)]
pub struct EnemyStats {
    pub enemy_type: EnemyType,
    pub health: i32,
    pub damage_on_collision: i32,
    pub speed: i64,
    pub radius: i64,
    pub spitter_range: Option<i64>,
    pub spitter_fire_rate_ms: Option<u64>,
    pub spitter_projectile_speed: Option<i64>,
    pub spitter_projectile_damage: Option<i32>,
}

/// Wave multiplier in percent for a given wave number: `100 + 10` per wave
/// past the first, i.e. a linear ramp.
pub open spec fn wave_multiplier_pct(wave: u32) -> int {
    if wave == 0 {
        100
    } else {
        100 + (wave - 1) * 10
    }
}

pub open spec fn scaled_health(base: int, wm_pct: int) -> int {
    let h = base * wm_pct / 100;
    if h < 1 {
        1
    } else {
        h
    }
}

pub open spec fn scaled_speed(base: int, per_point: int, wm_pct: int) -> int {
    if wm_pct <= 100 {
        base
    } else {
        base + per_point * (wm_pct - 100)
    }
}

/// The archetype table of tunables, scaled by the wave multiplier.
pub open spec fn spec_enemy_stats(t: EnemyType, wm_pct: int) -> EnemyStats {
    match t {
        EnemyType::Grunt => EnemyStats {
            enemy_type: t,
            health: scaled_health(20, wm_pct) as i32,
            damage_on_collision: 10,
            speed: scaled_speed(100_000, 200, wm_pct) as i64,
            radius: 20_000,
            spitter_range: Option::None,
            spitter_fire_rate_ms: Option::None,
            spitter_projectile_speed: Option::None,
            spitter_projectile_damage: Option::None,
        },
        EnemyType::Spitter => EnemyStats {
            enemy_type: t,
            health: scaled_health(15, wm_pct) as i32,
            damage_on_collision: 5,
            speed: scaled_speed(80_000, 150, wm_pct) as i64,
            radius: 17_500,
            spitter_range: Option::Some(300_000i64),
            spitter_fire_rate_ms: Option::Some(2500u64),
            spitter_projectile_speed: Option::Some(250_000i64),
            spitter_projectile_damage: Option::Some(8i32),
        },
        EnemyType::Tank => EnemyStats {
            enemy_type: t,
            health: scaled_health(75, wm_pct) as i32,
            damage_on_collision: 15,
            speed: scaled_speed(60_000, 100, wm_pct) as i64,
            radius: 27_500,
            spitter_range: Option::None,
            spitter_fire_rate_ms: Option::None,
            spitter_projectile_speed: Option::None,
            spitter_projectile_damage: Option::None,
        },
    }
}

impl EnemyStats {
    /// The archetype table of section tunables, scaled for a wave.
    pub fn get_for_type(enemy_type: EnemyType, wm_pct: u32) -> (r: EnemyStats)
        requires
            100 <= wm_pct <= 100_000,
        ensures
            r == spec_enemy_stats(enemy_type, wm_pct as int),
            0 < r.health <= 100_000,
            0 <= r.speed <= VEL_LIMIT,
    {
        let extra: i64 = (wm_pct - 100) as i64;
        match enemy_type {
            EnemyType::Grunt => {
                let h: i64 = 20 * (wm_pct as i64) / 100;
                EnemyStats {
                    enemy_type,
                    health: if h < 1 {
                        1
                    } else {
                        h as i32
                    },
                    damage_on_collision: 10,
                    speed: 100_000 + 200 * extra,
                    radius: 20_000,
                    spitter_range: Option::None,
                    spitter_fire_rate_ms: Option::None,
                    spitter_projectile_speed: Option::None,
                    spitter_projectile_damage: Option::None,
                }
            }
            EnemyType::Spitter => {
                let h: i64 = 15 * (wm_pct as i64) / 100;
                EnemyStats {
                    enemy_type,
                    health: if h < 1 {
                        1
                    } else {
                        h as i32
                    },
                    damage_on_collision: 5,
                    speed: 80_000 + 150 * extra,
                    radius: 17_500,
                    spitter_range: Option::Some(300_000),
                    spitter_fire_rate_ms: Option::Some(2500),
                    spitter_projectile_speed: Option::Some(250_000),
                    spitter_projectile_damage: Option::Some(8),
                }
            }
            EnemyType::Tank => {
                let h: i64 = 75 * (wm_pct as i64) / 100;
                EnemyStats {
                    enemy_type,
                    health: if h < 1 {
                        1
                    } else {
                        h as i32
                    },
                    damage_on_collision: 15,
                    speed: 60_000 + 100 * extra,
                    radius: 27_500,
                    spitter_range: Option::None,
                    spitter_fire_rate_ms: Option::None,
                    spitter_projectile_speed: Option::None,
                    spitter_projectile_damage: Option::None,
                }
            }
        }
    }
}

/// Every entry of `a` appears in `b` (as a record).
pub open spec fn registry_subset(a: Seq<Enemy>, b: Seq<Enemy>) -> bool {
    forall|i: int| 0 <= i < a.len() ==> b.contains(#[trigger] a[i])
}

/// Registry inclusion composes.
pub proof fn lemma_registry_subset_trans(a: Seq<Enemy>, b: Seq<Enemy>, c: Seq<Enemy>)
    requires
        registry_subset(a, b),
        registry_subset(b, c),
    ensures
        registry_subset(a, c),
{
    assert forall|i: int| 0 <= i < a.len() implies c.contains(#[trigger] a[i]) by {
        assert(b.contains(a[i]));
        let j = choose|j: int| 0 <= j < b.len() && b[j] == a[i];
        assert(c.contains(b[j]));
    }
}

/// No two entries share an id.
pub open spec fn unique_ids(s: Seq<Enemy>) -> bool {
    forall|i: int, j: int| 0 <= i < j < s.len() ==> s[i].id != s[j].id
}

/// Some entry carries this id.
pub open spec fn has_enemy_id(s: Seq<Enemy>, id: u64) -> bool {
    exists|i: int| 0 <= i < s.len() && s[i].id == id
}

/// The registry after a despawn request: the first entry with the id is
/// removed; with no such entry the registry is unchanged.
pub open spec fn remove_enemy_id(s: Seq<Enemy>, id: u64) -> Seq<Enemy>
    decreases s.len(),
{
    if s.len() == 0 {
        s
    } else if s[0].id == id {
        s.drop_first()
    } else {
        seq![s[0]] + remove_enemy_id(s.drop_first(), id)
    }
}

/// A despawn request for an absent id changes nothing.
pub proof fn lemma_remove_absent(s: Seq<Enemy>, id: u64)
    requires
        !has_enemy_id(s, id),
    ensures
        remove_enemy_id(s, id) == s,
    decreases s.len(),
{
    if s.len() > 0 {
        assert(s[0].id != id);
        assert(!has_enemy_id(s.drop_first(), id)) by {
            assert(forall|i: int|
                0 <= i < s.drop_first().len() ==> s.drop_first()[i] == s[i + 1]);
        }
        lemma_remove_absent(s.drop_first(), id);
        assert(seq![s[0]] + s.drop_first() =~= s);
    }
}

/// After a despawn, the id is gone (ids being unique).
pub proof fn lemma_remove_removes(s: Seq<Enemy>, id: u64)
    requires
        unique_ids(s),
    ensures
        !has_enemy_id(remove_enemy_id(s, id), id),
    decreases s.len(),
{
    if s.len() > 0 {
        let rest = s.drop_first();
        assert(forall|i: int| 0 <= i < rest.len() ==> rest[i] == s[i + 1]);
        if s[0].id == id {
            assert(forall|i: int| 0 <= i < rest.len() ==> rest[i].id != id);
        } else {
            assert(unique_ids(rest));
            lemma_remove_removes(rest, id);
            let r = seq![s[0]] + remove_enemy_id(rest, id);
            assert(forall|i: int| 1 <= i < r.len() ==> r[i] == remove_enemy_id(rest, id)[i - 1]);
        }
    }
}

/// Idempotent despawn: issuing the request twice for the same id removes
/// exactly once; the second request is a no-op.
pub proof fn lemma_despawn_idempotent(s: Seq<Enemy>, id: u64)
    requires
        unique_ids(s),
    ensures
        remove_enemy_id(remove_enemy_id(s, id), id) == remove_enemy_id(s, id),
{
    lemma_remove_removes(s, id);
    lemma_remove_absent(remove_enemy_id(s, id), id);
}

/// Removal at the index of the first occurrence is what `remove_enemy_id`
/// describes.
pub proof fn lemma_remove_at_index(s: Seq<Enemy>, id: u64, idx: int)
    requires
        0 <= idx < s.len(),
        s[idx].id == id,
        forall|j: int| 0 <= j < idx ==> s[j].id != id,
    ensures
        remove_enemy_id(s, id) == s.remove(idx),
    decreases idx,
{
    let rest = s.drop_first();
    assert(forall|i: int| 0 <= i < rest.len() ==> rest[i] == s[i + 1]);
    if idx == 0 {
        assert(s.remove(0) =~= rest);
    } else {
        lemma_remove_at_index(rest, id, idx - 1);
        assert(seq![s[0]] + rest.remove(idx - 1) =~= s.remove(idx));
    }
}

/// The spatial registry of live enemies.
pub struct EnemyRegistry {
    pub list: Vec<Enemy>,
}

impl EnemyRegistry {
    pub open spec fn wf(self) -> bool {
        &&& unique_ids(self.list@)
        &&& forall|i: int| 0 <= i < self.list@.len() ==> self.list@[i].wf()
    }

    pub fn new() -> (r: EnemyRegistry)
        ensures
            r.wf(),
            r.list@.len() == 0,
    {
        EnemyRegistry { list: Vec::new() }
    }

    pub fn count(&self) -> (r: usize)
        ensures
            r == self.list@.len(),
    {
        self.list.len()
    }

    /// Register a new enemy under a fresh id.
    pub fn spawn(&mut self, e: Enemy)
        requires
            old(self).wf(),
            e.wf(),
            !has_enemy_id(old(self).list@, e.id),
        ensures
            final(self).wf(),
            final(self).list@ == old(self).list@.push(e),
    {
        self.list.push(e);
        proof {
            let s = self.list@;
            assert(forall|i: int|
                0 <= i < s.len() - 1 ==> s[i] == old(self).list@[i]);
        }
    }

    /// Remove the enemy with this id, if it is live.  Returns whether
    /// anything was removed; a second request for the same id within the
    /// same tick (or ever, until the id is reused) removes nothing.
    pub fn despawn(&mut self, id: u64) -> (removed: bool)
        requires
            old(self).wf(),
        ensures
            final(self).wf(),
            removed == has_enemy_id(old(self).list@, id),
            final(self).list@ == remove_enemy_id(old(self).list@, id),
            !has_enemy_id(final(self).list@, id),
            final(self).list@.len() <= old(self).list@.len(),
            registry_subset(final(self).list@, old(self).list@),
    {
        let n: usize = self.list.len();
        let mut i: usize = 0;
        while i < n
            invariant
                old(self).wf(),
                *self == *old(self),
                n == self.list@.len(),
                0 <= i <= n,
                forall|j: int| 0 <= j < i ==> self.list@[j].id != id,
            decreases n - i,
        {
            if self.list[i].id == id {
                proof {
                    lemma_remove_at_index(self.list@, id, i as int);
                    lemma_remove_removes(self.list@, id);
                }
                let ghost before = self.list@;
                self.list.remove(i);
                proof {
                    assert forall|k: int|
                        0 <= k < self.list@.len() implies before.contains(
                        #[trigger] self.list@[k],
                    ) by {
                        if k < i as int {
                            assert(self.list@[k] == before[k]);
                        } else {
                            assert(self.list@[k] == before[k + 1]);
                        }
                    }
                }
                return true;
            }
            i += 1;
        }
        proof {
            assert(!has_enemy_id(self.list@, id));
            lemma_remove_absent(self.list@, id);
            assert forall|k: int|
                0 <= k < self.list@.len() implies self.list@.contains(
                #[trigger] self.list@[k],
            ) by {
                assert(self.list@[k] == self.list@[k]);
            }
        }
        false
    }

    /// Remove every enemy (end of session cleanup).
    pub fn despawn_all_enemies(&mut self)
        ensures
            final(self).wf(),
            final(self).list@.len() == 0,
    {
        self.list = Vec::new();
    }
}

/// Collision radius of a spitter's projectile, in milli-units.
pub const SPITTER_PROJECTILE_RADIUS: i64 = 12_500;

/// How long a spitter's projectile lives, in milliseconds.
pub const SPITTER_PROJECTILE_LIFETIME_MS: u64 = 3000;

/// A projectile an enemy fired at the player.
#[derive(Clone, Copy, PartialEq, Eq, Structural, Debug)]
pub struct EnemyProjectile {
    pub pos: Vec2I,
    pub vel: Vec2I,
    pub damage: i32,
    pub lifetime: Timer,
}

impl EnemyProjectile {
    pub open spec fn wf(self) -> bool {
        &&& self.pos.in_world()
        &&& -VEL_LIMIT <= self.vel.x <= VEL_LIMIT
        &&& -VEL_LIMIT <= self.vel.y <= VEL_LIMIT
        &&& 0 <= self.damage <= 1_000_000
        &&& self.lifetime.wf()
        &&& self.lifetime.mode == TimerMode::Once
    }
}

pub open spec fn all_eprojs_wf(s: Seq<EnemyProjectile>) -> bool {
    forall|i: int| 0 <= i < s.len() ==> s[i].wf()
}

/// Effective speed of an enemy: its base speed, scaled down by the slow
/// status while one is applied.
pub open spec fn effective_speed(e: Enemy) -> int {
    match e.frozen {
        Option::Some(f) => e.speed * f.speed_mult_pct / 100,
        Option::None => e.speed as int,
    }
}

/// A ranged enemy holds still once the player is within its shooting range
/// (distance at most the range).
pub open spec fn spitter_in_range(e: Enemy, player_pos: Vec2I) -> bool {
    match e.spitter {
        Option::Some(sp) => dist_sq(e.pos, player_pos) <= sp.shooting_range * sp.shooting_range,
        Option::None => false,
    }
}

/// One enemy after a movement tick: ranged enemies in range stand still,
/// everyone else walks toward the player at its effective speed.
pub open spec fn enemy_moved(e: Enemy, player_pos: Vec2I, dt_ms: u64) -> Enemy {
    if spitter_in_range(e, player_pos) {
        e
    } else {
        let d = Vec2I {
            x: (player_pos.x - e.pos.x) as i64,
            y: (player_pos.y - e.pos.y) as i64,
        };
        Enemy { pos: advanced(e.pos, norm_scaled_spec(d, effective_speed(e)), dt_ms), ..e }
    }
}

/// Walk every enemy toward the player for one tick.
pub fn enemy_movement_system(reg: &mut EnemyRegistry, player_pos: Vec2I, dt_ms: u64)
    requires
        old(reg).wf(),
        player_pos.in_world(),
        dt_ms <= DT_LIMIT,
    ensures
        final(reg).wf(),
        final(reg).list@.len() == old(reg).list@.len(),
        forall|i: int|
            0 <= i < old(reg).list@.len() ==> final(reg).list@[i] == enemy_moved(
                old(reg).list@[i],
                player_pos,
                dt_ms,
            ),
{
    let n: usize = reg.list.len();
    let mut i: usize = 0;
    while i < n
        invariant
            old(reg).wf(),
            player_pos.in_world(),
            dt_ms <= DT_LIMIT,
            0 <= i <= n,
            n == old(reg).list@.len(),
            reg.list@.len() == n,
            reg.wf(),
            forall|m: int| i <= m < n ==> reg.list@[m] == old(reg).list@[m],
            forall|m: int|
                0 <= m < i ==> reg.list@[m] == enemy_moved(old(reg).list@[m], player_pos, dt_ms),
        decreases n - i,
    {
        let e = reg.list[i];
        let mut stand_still = false;
        if let Option::Some(sp) = e.spitter {
            let d2: i64 = distance_squared(e.pos, player_pos);
            let range = sp.shooting_range;
            proof {
                assert(0 <= range * range <= 1_000_000_000_000_000_000) by (nonlinear_arith)
                    requires
                        0 <= range <= 1_000_000_000,
                ;
            }
            if d2 <= range * range {
                stand_still = true;
            }
        }
        if !stand_still {
            let es: i64 = match e.frozen {
                Option::Some(f) => {
                    let sp0 = e.speed;
                    let m0 = f.speed_mult_pct as i64;
                    proof {
                        assert(0 <= sp0 * m0 <= 10_000_000_000) by (nonlinear_arith)
                            requires
                                0 <= sp0 <= 100_000_000,
                                0 <= m0 <= 100,
                        ;
                    }
                    sp0 * m0 / 100
                },
                Option::None => e.speed,
            };
            let d = Vec2I { x: player_pos.x - e.pos.x, y: player_pos.y - e.pos.y };
            let vel = norm_scaled(d, es);
            let mut e2 = e;
            e2.pos = advance(e.pos, vel, dt_ms);
            reg.list.set(i, e2);
            proof {
                let s = old(reg).list@;
                let s2 = reg.list@;
                assert(forall|a: int, b: int|
                    0 <= a < b < s2.len() ==> s2[a].id == s[a].id && s2[b].id == s[b].id);
            }
        }
        i += 1;
    }
}

/// One enemy after its slow status ticks: the timer advances and an expired
/// status is removed (Slowed back to Unaffected).
pub open spec fn enemy_status_ticked(e: Enemy, dt_ms: u64) -> Enemy {
    match e.frozen {
        Option::Some(f) => {
            let t2 = f.timer.spec_tick(dt_ms);
            if t2.finished {
                Enemy { frozen: Option::None, ..e }
            } else {
                Enemy { frozen: Option::Some(Frozen { timer: t2, ..f }), ..e }
            }
        },
        Option::None => e,
    }
}

/// Advance every slow status; an elapsed one falls off.
pub fn freezing_status_system(reg: &mut EnemyRegistry, dt_ms: u64)
    requires
        old(reg).wf(),
        dt_ms <= MAX_TIME_MS,
    ensures
        final(reg).wf(),
        final(reg).list@.len() == old(reg).list@.len(),
        forall|i: int|
            0 <= i < old(reg).list@.len() ==> final(reg).list@[i] == enemy_status_ticked(
                old(reg).list@[i],
                dt_ms,
            ),
{
    let n: usize = reg.list.len();
    let mut i: usize = 0;
    while i < n
        invariant
            old(reg).wf(),
            dt_ms <= MAX_TIME_MS,
            0 <= i <= n,
            n == old(reg).list@.len(),
            reg.list@.len() == n,
            reg.wf(),
            forall|m: int| i <= m < n ==> reg.list@[m] == old(reg).list@[m],
            forall|m: int|
                0 <= m < i ==> reg.list@[m] == enemy_status_ticked(old(reg).list@[m], dt_ms),
        decreases n - i,
    {
        let e = reg.list[i];
        if let Option::Some(f) = e.frozen {
            let mut t = f.timer;
            t.tick(dt_ms);
            let mut e2 = e;
            if t.finished() {
                e2.frozen = Option::None;
            } else {
                e2.frozen = Option::Some(Frozen { timer: t, ..f });
            }
            reg.list.set(i, e2);
            proof {
                let s = old(reg).list@;
                let s2 = reg.list@;
                assert(forall|a: int, b: int|
                    0 <= a < b < s2.len() ==> s2[a].id == s[a].id && s2[b].id == s[b].id);
            }
        }
        i += 1;
    }
}

/// A fresh lifetime timer for a spitter's projectile.
pub open spec fn spec_eproj_lifetime() -> Timer {
    Timer {
        duration_ms: SPITTER_PROJECTILE_LIFETIME_MS,
        elapsed_ms: 0,
        mode: TimerMode::Once,
        paused: false,
        finished: false,
        just_finished: false,
    }
}

/// One ranged enemy's shooting step: in range, its fire timer ticks, and on
/// the timer's edge it spits one projectile at the player.
pub open spec fn spitter_step(e: Enemy, player_pos: Vec2I, dt_ms: u64) -> (Enemy, Option<
    EnemyProjectile,
>) {
    match e.spitter {
        Option::None => (e, Option::None),
        Option::Some(sp) => {
            if !spitter_in_range(e, player_pos) {
                (e, Option::None)
            } else {
                let t2 = sp.fire_timer.spec_tick(dt_ms);
                let e2 = Enemy {
                    spitter: Option::Some(SpitterBehavior { fire_timer: t2, ..sp }),
                    ..e
                };
                if t2.just_finished {
                    let d = Vec2I {
                        x: (player_pos.x - e.pos.x) as i64,
                        y: (player_pos.y - e.pos.y) as i64,
                    };
                    (
                        e2,
                        Option::Some(EnemyProjectile {
                            pos: e.pos,
                            vel: norm_scaled_spec(d, sp.projectile_speed as int),
                            damage: sp.projectile_damage,
                            lifetime: spec_eproj_lifetime(),
                        }),
                    )
                } else {
                    (e2, Option::None)
                }
            }
        },
    }
}

/// The projectiles all ranged enemies spit this tick, in registry order.
pub open spec fn spat_projectiles(s: Seq<Enemy>, player_pos: Vec2I, dt_ms: u64) -> Seq<
    EnemyProjectile,
>
    decreases s.len(),
{
    if s.len() == 0 {
        Seq::empty()
    } else {
        let rest = spat_projectiles(s.drop_last(), player_pos, dt_ms);
        match spitter_step(s.last(), player_pos, dt_ms).1 {
            Option::Some(pr) => rest.push(pr),
            Option::None => rest,
        }
    }
}

/// Ranged enemies in range fire at the player: each one's fire timer ticks
/// and, on its edge, one projectile spawns aimed at the player, with one
/// shoot sound.
pub fn spitter_shooting_logic(
    reg: &mut EnemyRegistry,
    player_pos: Vec2I,
    dt_ms: u64,
    projs: &mut Vec<EnemyProjectile>,
    sounds: &mut Vec<SoundEffect>,
)
    requires
        old(reg).wf(),
        player_pos.in_world(),
        dt_ms <= MAX_TIME_MS,
        all_eprojs_wf(old(projs)@),
    ensures
        final(reg).wf(),
        final(reg).list@.len() == old(reg).list@.len(),
        forall|i: int|
            0 <= i < old(reg).list@.len() ==> final(reg).list@[i] == spitter_step(
                old(reg).list@[i],
                player_pos,
                dt_ms,
            ).0,
        final(projs)@ == old(projs)@ + spat_projectiles(old(reg).list@, player_pos, dt_ms),
        all_eprojs_wf(final(projs)@),
        final(sounds)@.len() >= old(sounds)@.len(),
{
    let n: usize = reg.list.len();
    let mut i: usize = 0;
    proof {
        assert(old(reg).list@.take(0) =~= Seq::<Enemy>::empty());
        assert(old(projs)@ + spat_projectiles(old(reg).list@.take(0), player_pos, dt_ms) =~= old(
            projs,
        )@);
    }
    while i < n
        invariant
            old(reg).wf(),
            player_pos.in_world(),
            dt_ms <= MAX_TIME_MS,
            0 <= i <= n,
            n == old(reg).list@.len(),
            reg.list@.len() == n,
            reg.wf(),
            forall|m: int| i <= m < n ==> reg.list@[m] == old(reg).list@[m],
            forall|m: int|
                0 <= m < i ==> reg.list@[m] == spitter_step(
                    old(reg).list@[m],
                    player_pos,
                    dt_ms,
                ).0,
            projs@ == old(projs)@ + spat_projectiles(
                old(reg).list@.take(i as int),
                player_pos,
                dt_ms,
            ),
            all_eprojs_wf(projs@),
            sounds@.len() >= old(sounds)@.len(),
        decreases n - i,
    {
        proof {
            assert(old(reg).list@.take(i as int + 1).drop_last() =~= old(reg).list@.take(i as int));
            assert(old(reg).list@.take(i as int + 1).last() == old(reg).list@[i as int]);
        }
        let e = reg.list[i];
        if let Option::Some(sp) = e.spitter {
            let d2: i64 = distance_squared(e.pos, player_pos);
            let range = sp.shooting_range;
            proof {
                assert(0 <= range * range <= 1_000_000_000_000_000_000) by (nonlinear_arith)
                    requires
                        0 <= range <= 1_000_000_000,
                ;
            }
            if d2 <= range * range {
                let mut t = sp.fire_timer;
                t.tick(dt_ms);
                let mut e2 = e;
                e2.spitter = Option::Some(SpitterBehavior { fire_timer: t, ..sp });
                reg.list.set(i, e2);
                proof {
                    let s = old(reg).list@;
                    let s2 = reg.list@;
                    assert(forall|a: int, b: int|
                        0 <= a < b < s2.len() ==> s2[a].id == s[a].id && s2[b].id == s[b].id);
                }
                if t.just_finished() {
                    sounds.push(SoundEffect::EnemyShoot);
                    let d = Vec2I { x: player_pos.x - e.pos.x, y: player_pos.y - e.pos.y };
                    let vel = norm_scaled(d, sp.projectile_speed);
                    projs.push(EnemyProjectile {
                        pos: e.pos,
                        vel,
                        damage: sp.projectile_damage,
                        lifetime: Timer::new(SPITTER_PROJECTILE_LIFETIME_MS, TimerMode::Once),
                    });
                }
            }
        }
        i += 1;
    }
    proof {
        assert(old(reg).list@.take(n as int) =~= old(reg).list@);
    }
}

/// One enemy projectile after a movement tick.
pub open spec fn eproj_moved(pr: EnemyProjectile, dt_ms: u64) -> EnemyProjectile {
    EnemyProjectile { pos: advanced(pr.pos, pr.vel, dt_ms), ..pr }
}

/// Integrate every enemy projectile's position.
pub fn enemy_projectile_movement_system(projs: &mut Vec<EnemyProjectile>, dt_ms: u64)
    requires
        all_eprojs_wf(old(projs)@),
        dt_ms <= DT_LIMIT,
    ensures
        all_eprojs_wf(final(projs)@),
        final(projs)@.len() == old(projs)@.len(),
        forall|i: int|
            0 <= i < old(projs)@.len() ==> final(projs)@[i] == eproj_moved(old(projs)@[i], dt_ms),
{
    let n: usize = projs.len();
    let mut i: usize = 0;
    while i < n
        invariant
            all_eprojs_wf(old(projs)@),
            dt_ms <= DT_LIMIT,
            0 <= i <= n,
            n == old(projs)@.len(),
            projs@.len() == n,
            forall|m: int| i <= m < n ==> projs@[m] == old(projs)@[m],
            forall|m: int| 0 <= m < i ==> projs@[m] == eproj_moved(old(projs)@[m], dt_ms),
        decreases n - i,
    {
        let mut pr = projs[i];
        pr.pos = advance(pr.pos, pr.vel, dt_ms);
        projs.set(i, pr);
        i += 1;
    }
}

/// The enemy projectiles surviving a lifetime tick.
pub open spec fn live_eprojs_after(s: Seq<EnemyProjectile>, dt_ms: u64) -> Seq<EnemyProjectile>
    decreases s.len(),
{
    if s.len() == 0 {
        Seq::empty()
    } else {
        let rest = live_eprojs_after(s.drop_last(), dt_ms);
        let pr = EnemyProjectile { lifetime: s.last().lifetime.spec_tick(dt_ms), ..s.last() };
        if pr.lifetime.just_finished {
            rest
        } else {
            rest.push(pr)
        }
    }
}

/// Tick every enemy projectile's lifetime; despawn those that just elapsed.
pub fn enemy_projectile_lifetime_system(projs: &mut Vec<EnemyProjectile>, dt_ms: u64)
    requires
        all_eprojs_wf(old(projs)@),
        dt_ms <= MAX_TIME_MS,
    ensures
        all_eprojs_wf(final(projs)@),
        final(projs)@ == live_eprojs_after(old(projs)@, dt_ms),
{
    let n: usize = projs.len();
    let mut kept: Vec<EnemyProjectile> = Vec::new();
    let mut i: usize = 0;
    proof {
        assert(old(projs)@.take(0) =~= Seq::<EnemyProjectile>::empty());
    }
    while i < n
        invariant
            all_eprojs_wf(old(projs)@),
            dt_ms <= MAX_TIME_MS,
            0 <= i <= n,
            n == old(projs)@.len(),
            projs@ == old(projs)@,
            all_eprojs_wf(kept@),
            kept@ == live_eprojs_after(old(projs)@.take(i as int), dt_ms),
        decreases n - i,
    {
        proof {
            assert(old(projs)@.take(i as int + 1).drop_last() =~= old(projs)@.take(i as int));
            assert(old(projs)@.take(i as int + 1).last() == old(projs)@[i as int]);
        }
        let mut pr = projs[i];
        pr.lifetime.tick(dt_ms);
        if !pr.lifetime.just_finished() {
            kept.push(pr);
        }
        i += 1;
    }
    proof {
        assert(old(projs)@.take(n as int) =~= old(projs)@);
    }
    *projs = kept;
}

/// The player after an enemy projectile lands: contact damage, and the
/// invincibility window restarts at its full duration.
pub open spec fn player_struck(p: Player, damage: int) -> Player {
    Player {
        health: sub_health_spec(p.health as int, damage) as i32,
        invincibility_timer: Timer {
            elapsed_ms: 0,
            finished: false,
            just_finished: false,
            ..p.invincibility_timer
        },
        ..p
    }
}

/// One enemy projectile against the player: whether the player changes,
/// whether the projectile survives, and whether a hit sound is due.  The
/// projectile is removed on contact whether or not invincibility blocked
/// the damage.
pub open spec fn eproj_step(pr: EnemyProjectile, p: Player) -> (Player, bool, bool) {
    if !collides(pr.pos, SPITTER_PROJECTILE_RADIUS as int, p.pos, PLAYER_RADIUS as int) {
        (p, true, false)
    } else if p.invincibility_timer.finished {
        (player_struck(p, pr.damage as int), false, true)
    } else {
        (p, false, false)
    }
}

/// All enemy projectiles against the player, in order: the surviving
/// projectiles, the player after every landed hit, and the hit sounds.
pub open spec fn eprojs_resolved(s: Seq<EnemyProjectile>, p: Player, sounds: Seq<SoundEffect>) -> (
    Seq<EnemyProjectile>,
    Player,
    Seq<SoundEffect>,
)
    decreases s.len(),
{
    if s.len() == 0 {
        (Seq::empty(), p, sounds)
    } else {
        let prev = eprojs_resolved(s.drop_last(), p, sounds);
        let step = eproj_step(s.last(), prev.1);
        (
            if step.1 {
                prev.0.push(s.last())
            } else {
                prev.0
            },
            step.0,
            if step.2 {
                prev.2.push(SoundEffect::PlayerHit)
            } else {
                prev.2
            },
        )
    }
}

/// The resolution pass never moves the player: only health and the
/// invincibility window change.
pub proof fn lemma_eprojs_resolved_player_pos(
    s: Seq<EnemyProjectile>,
    p: Player,
    sounds: Seq<SoundEffect>,
)
    ensures
        eprojs_resolved(s, p, sounds).1.pos == p.pos,
    decreases s.len(),
{
    if s.len() > 0 {
        lemma_eprojs_resolved_player_pos(s.drop_last(), p, sounds);
    }
}

/// Enemy projectiles striking the player.  Damage and the restart of the
/// invincibility window land only while the window is closed; a projectile
/// that touches the player is removed either way.
pub fn enemy_projectile_collision_system(
    projs: &mut Vec<EnemyProjectile>,
    p: &mut Player,
    sounds: &mut Vec<SoundEffect>,
)
    requires
        all_eprojs_wf(old(projs)@),
        old(p).wf(),
    ensures
        final(p).wf(),
        all_eprojs_wf(final(projs)@),
        ({
            let r = eprojs_resolved(old(projs)@, *old(p), old(sounds)@);
            &&& final(projs)@ == r.0
            &&& *final(p) == r.1
            &&& final(sounds)@ == r.2
        }),
{
    let n: usize = projs.len();
    let mut kept: Vec<EnemyProjectile> = Vec::new();
    let mut i: usize = 0;
    proof {
        assert(old(projs)@.take(0) =~= Seq::<EnemyProjectile>::empty());
    }
    while i < n
        invariant
            all_eprojs_wf(old(projs)@),
            old(p).wf(),
            p.wf(),
            0 <= i <= n,
            n == old(projs)@.len(),
            projs@ == old(projs)@,
            all_eprojs_wf(kept@),
            ({
                let r = eprojs_resolved(old(projs)@.take(i as int), *old(p), old(sounds)@);
                &&& kept@ == r.0
                &&& *p == r.1
                &&& sounds@ == r.2
            }),
        decreases n - i,
    {
        proof {
            assert(old(projs)@.take(i as int + 1).drop_last() =~= old(projs)@.take(i as int));
            assert(old(projs)@.take(i as int + 1).last() == old(projs)@[i as int]);
        }
        let pr = projs[i];
        if circles_collide(pr.pos, SPITTER_PROJECTILE_RADIUS, p.pos, PLAYER_RADIUS) {
            if p.invincibility_timer.finished() {
                sounds.push(SoundEffect::PlayerHit);
                p.health = sub_health(p.health, pr.damage);
                p.invincibility_timer.reset();
            }
        } else {
            kept.push(pr);
        }
        i += 1;
    }
    proof {
        assert(old(projs)@.take(n as int) =~= old(projs)@);
    }
    *projs = kept;
}

/// An enemy built from archetype stats, at a spawn position, with a fresh
/// id and no status.
pub open spec fn enemy_from_stats(st: EnemyStats, id: u64, pos: Vec2I) -> Enemy {
    Enemy {
        id,
        pos,
        radius: st.radius,
        health: st.health,
        damage_on_collision: st.damage_on_collision,
        speed: st.speed,
        enemy_type: st.enemy_type,
        frozen: Option::None,
        spitter: match st.spitter_range {
            Option::Some(range) => Option::Some(SpitterBehavior {
                shooting_range: range,
                fire_timer: Timer {
                    duration_ms: st.spitter_fire_rate_ms.unwrap(),
                    elapsed_ms: 0,
                    mode: TimerMode::Repeating,
                    paused: false,
                    finished: false,
                    just_finished: false,
                },
                projectile_speed: st.spitter_projectile_speed.unwrap(),
                projectile_damage: st.spitter_projectile_damage.unwrap(),
            }),
            Option::None => Option::None,
        },
    }
}

/// Where a spawn lands: a point on a ring around the player — the player's
/// position plus a `dist`-long offset at angle `angle_dd` — clamped into
/// the world.
pub open spec fn spawn_position(player_pos: Vec2I, dist: int, angle_dd: int) -> Vec2I {
    Vec2I {
        x: clamp_coord(player_pos.x + orbit_offset_spec(dist, angle_dd).x) as i64,
        y: clamp_coord(player_pos.y + orbit_offset_spec(dist, angle_dd).y) as i64,
    }
}

/// What any spawn must be: an archetype of the wave's table under the given
/// fresh id, placed on the spawn ring around the player — between 896 and
/// 1280 units out, at some angle; the first two waves send only grunts.
pub open spec fn valid_spawn(e: Enemy, wave: u32, wm_pct: int, id: u64, player_pos: Vec2I) -> bool {
    exists|t: EnemyType, dist: int, angle_dd: int|
        {
            &&& 896_000 <= dist < 1_280_000
            &&& 0 <= angle_dd < 3600
            &&& e == #[trigger] enemy_from_stats(
                spec_enemy_stats(t, wm_pct),
                id,
                spawn_position(player_pos, dist, angle_dd),
            )
            &&& (wave <= 2 ==> t == EnemyType::Grunt)
        }
}

/// Maximum population the registry accepts.
pub const ENEMY_CAP: usize = 1_000_000;

/// Tick the spawn timer; on its edge, while the population is under the
/// cap, spawn one enemy: an archetype drawn by the wave's rules (early
/// waves send only grunts), with wave-scaled stats, at a random position
/// around the player, under the given fresh id.  On a spawn the fresh-id
/// counter advances by one.
pub fn enemy_spawn_system(
    reg: &mut EnemyRegistry,
    spawn_timer: &mut Timer,
    next_id: &mut u64,
    max_enemies: u32,
    wave: u32,
    player_pos: Vec2I,
    dt_ms: u64,
)
    requires
        old(reg).wf(),
        old(spawn_timer).wf(),
        wave <= 9000,
        player_pos.in_world(),
        dt_ms <= MAX_TIME_MS,
        old(reg).list@.len() < ENEMY_CAP,
        *old(next_id) < u64::MAX,
        forall|i: int| 0 <= i < old(reg).list@.len() ==> old(reg).list@[i].id < *old(next_id),
    ensures
        final(reg).wf(),
        *final(spawn_timer) == old(spawn_timer).spec_tick(dt_ms),
        ({
            let spawns = final(spawn_timer).just_finished && old(reg).list@.len() < max_enemies;
            &&& (!spawns ==> final(reg).list@ == old(reg).list@ && *final(next_id) == *old(
                next_id,
            ))
            &&& (spawns ==> {
                &&& final(reg).list@.len() == old(reg).list@.len() + 1
                &&& (forall|i: int|
                    0 <= i < old(reg).list@.len() ==> final(reg).list@[i] == old(reg).list@[i])
                &&& valid_spawn(
                    final(reg).list@[old(reg).list@.len() as int],
                    wave,
                    wave_multiplier_pct(wave),
                    *old(next_id),
                    player_pos,
                )
                &&& *final(next_id) == *old(next_id) + 1
            })
        }),
        forall|i: int| 0 <= i < final(reg).list@.len() ==> final(reg).list@[i].id < *final(next_id),
{
    spawn_timer.tick(dt_ms);
    if !spawn_timer.just_finished() || reg.list.len() >= max_enemies as usize {
        return;
    }
    let chosen: EnemyType = if wave <= 2 {
        EnemyType::Grunt
    } else if wave <= 5 {
        if rand_ratio(3, 5) {
            EnemyType::Grunt
        } else if rand_ratio(1, 2) {
            EnemyType::Spitter
        } else {
            EnemyType::Tank
        }
    } else {
        let roll: u32 = rand_range_u32(0, 100);
        if roll < 40 {
            EnemyType::Grunt
        } else if roll < 80 {
            EnemyType::Spitter
        } else {
            EnemyType::Tank
        }
    };
    let wm_pct: u32 = 100 + (if wave == 0 {
        0
    } else {
        wave - 1
    }) * 10;
    let stats = EnemyStats::get_for_type(chosen, wm_pct);
    let angle: u32 = rand_range_u32(0, 3600);
    let distance: i64 = rand_range_u32(896_000, 1_280_000) as i64;
    let off = orbit_offset(distance, angle);
    let rx: i64 = player_pos.x + off.x;
    let ry: i64 = player_pos.y + off.y;
    let px: i64 = if rx < -COORD_LIMIT {
        -COORD_LIMIT
    } else if rx > COORD_LIMIT {
        COORD_LIMIT
    } else {
        rx
    };
    let py: i64 = if ry < -COORD_LIMIT {
        -COORD_LIMIT
    } else if ry > COORD_LIMIT {
        COORD_LIMIT
    } else {
        ry
    };
    let pos = Vec2I { x: px, y: py };
    let id: u64 = *next_id;
    *next_id = id + 1;
    let e = Enemy {
        id,
        pos,
        radius: stats.radius,
        health: stats.health,
        damage_on_collision: stats.damage_on_collision,
        speed: stats.speed,
        enemy_type: stats.enemy_type,
        frozen: Option::None,
        spitter: match stats.spitter_range {
            Option::Some(range) => Option::Some(SpitterBehavior {
                shooting_range: range,
                fire_timer: Timer::new(
                    match stats.spitter_fire_rate_ms {
                        Option::Some(ms) => ms,
                        Option::None => 2500,
                    },
                    TimerMode::Repeating,
                ),
                projectile_speed: match stats.spitter_projectile_speed {
                    Option::Some(v) => v,
                    Option::None => 250_000,
                },
                projectile_damage: match stats.spitter_projectile_damage {
                    Option::Some(v) => v,
                    Option::None => 8,
                },
            }),
            Option::None => Option::None,
        },
    };
    proof {
        assert(pos == spawn_position(player_pos, distance as int, angle as int));
        assert(e == enemy_from_stats(
            spec_enemy_stats(chosen, wm_pct as int),
            id,
            spawn_position(player_pos, distance as int, angle as int),
        ));
        assert(valid_spawn(e, wave, wave_multiplier_pct(wave), id, player_pos));
    }
    reg.spawn(e);
}

} // verus!

