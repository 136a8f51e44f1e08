//! Player bullets: spawning (with multi-projectile spread), movement,
//! lifetime, and the collision pass against the enemy registry.
//!
//! A bullet remembers every target it has hit for its whole lifetime, so a
//! piercing bullet never strikes the same enemy twice; its pass reuses the
//! same exclusion volley that skill projectiles resolve with.

use vstd::prelude::*;
use crate::enemy::EnemyRegistry;
use crate::events::{DamageText, SoundEffect};
use crate::geom::{
    advance, advanced, cos_milli, cos_milli_spec, norm_scaled, norm_scaled_spec, rotate_by,
    rotated, sin_milli, sin_milli_spec, Vec2I, DT_LIMIT, VEL_LIMIT,
};
use crate::player::Player;
use crate::resolve::{all_pickups_in_world, Pickup, VolleyOut};
use crate::skills::{skill_hits_before, skill_strike, skill_volley};
use crate::timer::{Timer, TimerMode, MAX_TIME_MS};

verus! {

/// Collision radius of a bullet, in milli-units.
pub const BULLET_RADIUS: i64 = 5_000;

pub const BASE_BULLET_SPEED: i64 = 600_000;

pub const BASE_BULLET_DAMAGE: i32 = 10;

pub const BULLET_LIFETIME_MS: u64 = 2000;

/// A live player bullet.  `piercing_left` is the number of further targets
/// it may pass through; at zero, the next hit consumes it.  `already_hit`
/// holds the id of every target this bullet ever struck: a target on it is
/// excluded for the bullet's whole lifetime.
#[derive(Clone, PartialEq, Eq, Debug)]
pub struct Bullet {
    pub pos: Vec2I,
    pub vel: Vec2I,
    pub damage: i32,
    pub piercing_left: u32,
    pub already_hit: Vec<u64>,
    pub lifetime: Timer,
}

/// The mathematical image of a bullet.
pub struct SpecBullet {
    pub pos: Vec2I,
    pub vel: Vec2I,
    pub damage: i32,
    pub piercing_left: u32,
    pub already_hit: Seq<u64>,
    pub lifetime: Timer,
}

impl View for Bullet {
    type V = SpecBullet;

    open spec fn view(&self) -> SpecBullet {
        SpecBullet {
            pos: self.pos,
            vel: self.vel,
            damage: self.damage,
            piercing_left: self.piercing_left,
            already_hit: self.already_hit@,
            lifetime: self.lifetime,
        }
    }
}

impl Bullet {
    pub open spec fn wf(self) -> bool {
        &&& self.pos.in_world()
        &&& -VEL_LIMIT <= self.vel.x <= VEL_LIMIT
        &&& -VEL_LIMIT <= self.vel.y <= VEL_LIMIT
        &&& 0 <= self.damage <= 1_000_000
        &&& self.piercing_left <= 1_000_000
        &&& self.already_hit@.len() + self.piercing_left <= 2_000_000
        &&& self.lifetime.wf()
        &&& self.lifetime.mode == TimerMode::Once
    }
}

pub open spec fn all_bullets_wf(s: Seq<Bullet>) -> bool {
    forall|i: int| 0 <= i < s.len() ==> s[i].wf()
}

/// The views of a row of bullets.
pub open spec fn bullet_views(s: Seq<Bullet>) -> Seq<SpecBullet> {
    s.map_values(|b: Bullet| b@)
}

/// The basic weapon: a repeating fire-rate timer gating bullet spawns.
#[derive(Clone, Copy, PartialEq, Eq, Structural, Debug)]
pub struct BasicWeapon {
    pub fire_rate: Timer,
}

impl BasicWeapon {
    pub open spec fn wf(self) -> bool {
        self.fire_rate.wf() && self.fire_rate.mode == TimerMode::Repeating
    }
}

/// A fresh repeating timer of the given period.
pub open spec fn spec_fresh_repeating(ms: u64) -> Timer {
    Timer {
        duration_ms: ms,
        elapsed_ms: 0,
        mode: TimerMode::Repeating,
        paused: false,
        finished: false,
        just_finished: false,
    }
}

/// A fresh bullet lifetime timer.
pub open spec fn spec_bullet_lifetime() -> Timer {
    Timer {
        duration_ms: BULLET_LIFETIME_MS,
        elapsed_ms: 0,
        mode: TimerMode::Once,
        paused: false,
        finished: false,
        just_finished: false,
    }
}

/// Register one bullet flying from `pos` along `direction` (any nonzero
/// length) at `speed` milli-units per second, with an empty hit list.
pub fn spawn_bullet(
    bullets: &mut Vec<Bullet>,
    pos: Vec2I,
    direction: Vec2I,
    damage: i32,
    speed: i64,
    piercing: u32,
)
    requires
        pos.in_world(),
        -2_000_000_000 <= direction.x <= 2_000_000_000,
        -2_000_000_000 <= direction.y <= 2_000_000_000,
        0 <= damage <= 1_000_000,
        0 <= speed <= VEL_LIMIT,
        piercing <= 1_000_000,
        all_bullets_wf(old(bullets)@),
    ensures
        all_bullets_wf(final(bullets)@),
        final(bullets)@.len() == old(bullets)@.len() + 1,
        forall|m: int| 0 <= m < old(bullets)@.len() ==> final(bullets)@[m] == old(bullets)@[m],
        (final(bullets)@[old(bullets)@.len() as int])@ == (SpecBullet {
            pos,
            vel: norm_scaled_spec(direction, speed as int),
            damage,
            piercing_left: piercing,
            already_hit: Seq::empty(),
            lifetime: spec_bullet_lifetime(),
        }),
{
    let vel = norm_scaled(direction, speed);
    bullets.push(Bullet {
        pos,
        vel,
        damage,
        piercing_left: piercing,
        already_hit: Vec::new(),
        lifetime: Timer::new(BULLET_LIFETIME_MS, TimerMode::Once),
    });
}

/// Angle offset (deci-degrees, wrapped into a turn) of the `k`-th
/// projectile of a volley of `total`: the volley fans out around the aim,
/// one spread step between neighbours.
pub open spec fn spread_angle_dd(k: int, total: int) -> int {
    (k * 100 - (total - 1) * 50 + 7200) % 3600
}

/// Flight direction of the `k`-th projectile: the aim rotated by its
/// spread offset.
pub open spec fn volley_direction(aim: Vec2I, k: int, total: int) -> Vec2I {
    rotated(
        aim,
        cos_milli_spec(spread_angle_dd(k, total)),
        sin_milli_spec(spread_angle_dd(k, total)),
    )
}

/// Bullet speed under the projectile-speed bonus, capped at the world's
/// speed limit.
pub open spec fn bullet_speed(p: Player) -> int {
    let s = BASE_BULLET_SPEED * p.projectile_speed_pct / 100;
    if s > VEL_LIMIT {
        VEL_LIMIT as int
    } else {
        s
    }
}

/// The `k`-th bullet of the volley the player fires.
pub open spec fn spawned_bullet(p: Player, k: int, total: int) -> SpecBullet {
    SpecBullet {
        pos: p.pos,
        vel: norm_scaled_spec(volley_direction(p.aim_direction, k, total), bullet_speed(p)),
        damage: (BASE_BULLET_DAMAGE + p.bullet_damage_bonus) as i32,
        piercing_left: p.projectile_piercing,
        already_hit: Seq::empty(),
        lifetime: spec_bullet_lifetime(),
    }
}

/// Tick the fire-rate timer; on its edge, fire one volley: one bullet plus
/// one per additional-projectile bonus, fanned out around the aim, each
/// carrying the player's damage bonus and pierce counter, and emit one
/// shoot sound.
pub fn player_shooting_system(
    p: &Player,
    weapon: &mut BasicWeapon,
    bullets: &mut Vec<Bullet>,
    dt_ms: u64,
    sounds: &mut Vec<SoundEffect>,
)
    requires
        p.wf(),
        old(weapon).wf(),
        all_bullets_wf(old(bullets)@),
        dt_ms <= MAX_TIME_MS,
    ensures
        final(weapon).wf(),
        all_bullets_wf(final(bullets)@),
        final(weapon).fire_rate == old(weapon).fire_rate.spec_tick(dt_ms),
        !final(weapon).fire_rate.just_finished ==> final(bullets)@ == old(bullets)@
            && final(sounds)@ == old(sounds)@,
        final(weapon).fire_rate.just_finished ==> {
            let total = 1 + p.additional_projectiles as int;
            &&& final(sounds)@ == old(sounds)@.push(SoundEffect::PlayerShoot)
            &&& final(bullets)@.len() == old(bullets)@.len() + total
            &&& (forall|m: int|
                0 <= m < old(bullets)@.len() ==> final(bullets)@[m] == old(bullets)@[m])
            &&& (forall|k: int|
                0 <= k < total ==> (#[trigger] final(bullets)@[old(bullets)@.len() + k])@
                    == spawned_bullet(*p, k, total))
        },
{
    weapon.fire_rate.tick(dt_ms);
    if weapon.fire_rate.just_finished() {
        sounds.push(SoundEffect::PlayerShoot);
        let total: u32 = 1 + p.additional_projectiles;
        let damage: i32 = BASE_BULLET_DAMAGE + p.bullet_damage_bonus;
        let raw_speed: i64 = BASE_BULLET_SPEED * (p.projectile_speed_pct as i64) / 100;
        let speed: i64 = if raw_speed > VEL_LIMIT {
            VEL_LIMIT
        } else {
            raw_speed
        };
        let ghost base = bullets@.len() as int;
        let mut k: u32 = 0;
        while k < total
            invariant
                p.wf(),
                total == 1 + p.additional_projectiles,
                0 <= k <= total,
                damage == BASE_BULLET_DAMAGE + p.bullet_damage_bonus,
                speed as int == bullet_speed(*p),
                0 <= speed <= VEL_LIMIT,
                base == old(bullets)@.len(),
                all_bullets_wf(old(bullets)@),
                all_bullets_wf(bullets@),
                bullets@.len() == base + k,
                forall|m: int| 0 <= m < base ==> bullets@[m] == old(bullets)@[m],
                forall|m: int|
                    0 <= m < k ==> (#[trigger] bullets@[base + m])@ == spawned_bullet(
                        *p,
                        m,
                        1 + p.additional_projectiles as int,
                    ),
            decreases total - k,
        {
            let off: i64 = (k as i64) * 100 - ((total - 1) as i64) * 50 + 7200;
            let angle: u32 = (off % 3600) as u32;
            let c: i64 = cos_milli(angle);
            let sn: i64 = sin_milli(angle);
            let dir = rotate_by(p.aim_direction, c, sn);
            spawn_bullet(bullets, p.pos, dir, damage, speed, p.projectile_piercing);
            k += 1;
        }
    }
}

/// One bullet after a movement tick.
pub open spec fn bullet_moved(b: Bullet, dt_ms: u64) -> SpecBullet {
    SpecBullet { pos: advanced(b.pos, b.vel, dt_ms), ..b@ }
}

/// Integrate every projectile's position by its velocity.
pub fn projectile_movement_system(bullets: &mut Vec<Bullet>, dt_ms: u64)
    requires
        all_bullets_wf(old(bullets)@),
        dt_ms <= DT_LIMIT,
    ensures
        all_bullets_wf(final(bullets)@),
        final(bullets)@.len() == old(bullets)@.len(),
        forall|i: int|
            0 <= i < old(bullets)@.len() ==> (#[trigger] final(bullets)@[i])@ == bullet_moved(
                old(bullets)@[i],
                dt_ms,
            ),
{
    let n: usize = bullets.len();
    let mut i: usize = 0;
    while i < n
        invariant
            all_bullets_wf(old(bullets)@),
            dt_ms <= DT_LIMIT,
            0 <= i <= n,
            n == old(bullets)@.len(),
            bullets@.len() == n,
            forall|m: int| i <= m < n ==> bullets@[m] == old(bullets)@[m],
            all_bullets_wf(bullets@),
            forall|m: int|
                0 <= m < i ==> (#[trigger] bullets@[m])@ == bullet_moved(old(bullets)@[m], dt_ms),
        decreases n - i,
    {
        let mut b = bullets.remove(i);
        b.pos = advance(b.pos, b.vel, dt_ms);
        bullets.insert(i, b);
        i += 1;
    }
}

/// The bullets surviving a lifetime tick (by view): each timer advances,
/// and a bullet whose timer just elapsed is removed.
pub open spec fn live_bullets_after(s: Seq<Bullet>, dt_ms: u64) -> Seq<SpecBullet>
    decreases s.len(),
{
    if s.len() == 0 {
        Seq::empty()
    } else {
        let rest = live_bullets_after(s.drop_last(), dt_ms);
        let t2 = s.last().lifetime.spec_tick(dt_ms);
        if t2.just_finished {
            rest
        } else {
            rest.push(SpecBullet { lifetime: t2, ..s.last()@ })
        }
    }
}

/// Tick every bullet's lifetime; despawn those that just elapsed.
pub fn bullet_lifetime_system(bullets: &mut Vec<Bullet>, dt_ms: u64)
    requires
        all_bullets_wf(old(bullets)@),
        dt_ms <= MAX_TIME_MS,
    ensures
        all_bullets_wf(final(bullets)@),
        bullet_views(final(bullets)@) == live_bullets_after(old(bullets)@, dt_ms),
{
    let n: usize = bullets.len();
    let mut kept: Vec<Bullet> = Vec::new();
    let mut i: usize = 0;
    proof {
        assert(old(bullets)@.take(0) =~= Seq::<Bullet>::empty());
        assert(old(bullets)@.skip(0) =~= old(bullets)@);
        assert(bullet_views(kept@) =~= live_bullets_after(old(bullets)@.take(0), dt_ms));
    }
    while i < n
        invariant
            all_bullets_wf(old(bullets)@),
            dt_ms <= MAX_TIME_MS,
            0 <= i <= n,
            n == old(bullets)@.len(),
            bullets@ == old(bullets)@.skip(i as int),
            all_bullets_wf(kept@),
            bullet_views(kept@) == live_bullets_after(old(bullets)@.take(i as int), dt_ms),
        decreases n - i,
    {
        proof {
            assert(old(bullets)@.take(i as int + 1).drop_last() =~= old(bullets)@.take(i as int));
            assert(old(bullets)@.take(i as int + 1).last() == old(bullets)@[i as int]);
            assert(old(bullets)@.skip(i as int)[0] == old(bullets)@[i as int]);
            assert(old(bullets)@.skip(i as int).remove(0) =~= old(bullets)@.skip(i as int + 1));
        }
        let ghost kepts = kept@;
        let mut b = bullets.remove(0);
        b.lifetime.tick(dt_ms);
        if !b.lifetime.just_finished() {
            kept.push(b);
            proof {
                assert(bullet_views(kept@) =~= bullet_views(kepts).push(b@));
            }
        }
        i += 1;
    }
    proof {
        assert(old(bullets)@.take(n as int) =~= old(bullets)@);
    }
    *bullets = kept;
}

/// One bullet's pass over the registry: the exclusion volley it lands
/// (targets on its hit list are never struck again), and what is left of
/// the bullet — its hit list grown by every struck target, its pierce
/// budget reduced by the strike count; nothing when the budget ran out.
pub open spec fn bullet_pass_one(b: SpecBullet, st: VolleyOut, now_ms: u64) -> (VolleyOut, Option<
    SpecBullet,
>) {
    let s = st.enemies;
    let out = skill_volley(
        s,
        b.pos,
        BULLET_RADIUS as int,
        b.already_hit,
        b.damage as int,
        b.piercing_left as int,
        now_ms,
        st,
        s.len() as int,
    );
    let total = skill_hits_before(s, b.pos, BULLET_RADIUS as int, b.already_hit, s.len() as int);
    if total > b.piercing_left {
        (out.0, Option::None)
    } else {
        (
            out.0,
            Option::Some(SpecBullet {
                piercing_left: (b.piercing_left - total) as u32,
                already_hit: out.1,
                ..b
            }),
        )
    }
}

/// All bullets' passes, in order, threading the registry and the output
/// queues from each pass into the next; the surviving bullets keep their
/// order.
pub open spec fn bullets_resolve(bs: Seq<SpecBullet>, st: VolleyOut, now_ms: u64) -> (VolleyOut, Seq<
    SpecBullet,
>)
    decreases bs.len(),
{
    if bs.len() == 0 {
        (st, Seq::empty())
    } else {
        let prev = bullets_resolve(bs.drop_last(), st, now_ms);
        let this = bullet_pass_one(bs.last(), prev.0, now_ms);
        (
            this.0,
            match this.1 {
                Option::Some(b) => prev.1.push(b),
                Option::None => prev.1,
            },
        )
    }
}

/// Resolve every bullet against the enemies, in bullet order.  Each bullet
/// strikes eligible targets — in reach and never struck by it before —
/// until its pierce budget runs out; each struck target joins the bullet's
/// hit list for its whole lifetime, and the strike that exhausts the budget
/// consumes the bullet.  Damage, score, pickups, sounds, texts and despawn
/// requests land as `damage_enemy_at` states, hit by hit.
pub fn bullet_collision_system(
    bullets: &mut Vec<Bullet>,
    reg: &mut EnemyRegistry,
    now_ms: u64,
    score: &mut u32,
    pickups: &mut Vec<Pickup>,
    sounds: &mut Vec<SoundEffect>,
    texts: &mut Vec<DamageText>,
    despawns: &mut Vec<u64>,
)
    requires
        all_bullets_wf(old(bullets)@),
        old(reg).wf(),
        old(reg).list@.len() <= 1_000_000,
        all_pickups_in_world(old(pickups)@),
    ensures
        final(reg).wf(),
        final(reg).list@.len() == old(reg).list@.len(),
        forall|k: int|
            0 <= k < final(reg).list@.len() ==> (#[trigger] final(reg).list@[k]).id == old(
            reg,
        ).list@[k].id,
        all_bullets_wf(final(bullets)@),
        all_pickups_in_world(final(pickups)@),
        ({
            let r = bullets_resolve(
                bullet_views(old(bullets)@),
                VolleyOut {
                    enemies: old(reg).list@,
                    score: *old(score) as int,
                    pickups: old(pickups)@,
                    sounds: old(sounds)@,
                    texts: old(texts)@,
                    despawns: old(despawns)@,
                },
                now_ms,
            );
            &&& bullet_views(final(bullets)@) == r.1
            &&& final(reg).list@ == r.0.enemies
            &&& *final(score) == r.0.score
            &&& final(pickups)@ == r.0.pickups
            &&& final(sounds)@ == r.0.sounds
            &&& final(texts)@ == r.0.texts
            &&& final(despawns)@ == r.0.despawns
        }),
{
    let ghost init = VolleyOut {
        enemies: old(reg).list@,
        score: *old(score) as int,
        pickups: old(pickups)@,
        sounds: old(sounds)@,
        texts: old(texts)@,
        despawns: old(despawns)@,
    };
    let n: usize = bullets.len();
    let mut kept: Vec<Bullet> = Vec::new();
    let mut i: usize = 0;
    proof {
        assert(bullet_views(old(bullets)@).take(0) =~= Seq::<SpecBullet>::empty());
        assert(old(bullets)@.skip(0) =~= old(bullets)@);
    }
    while i < n
        invariant
            all_bullets_wf(old(bullets)@),
            0 <= i <= n,
            n == old(bullets)@.len(),
            bullets@ == old(bullets)@.skip(i as int),
            reg.wf(),
            reg.list@.len() == old(reg).list@.len(),
            reg.list@.len() <= 1_000_000,
            forall|k: int|
                0 <= k < reg.list@.len() ==> (#[trigger] reg.list@[k]).id == old(reg).list@[k].id,
            all_pickups_in_world(pickups@),
            all_bullets_wf(kept@),
            init == (VolleyOut {
                enemies: old(reg).list@,
                score: *old(score) as int,
                pickups: old(pickups)@,
                sounds: old(sounds)@,
                texts: old(texts)@,
                despawns: old(despawns)@,
            }),
            ({
                let r = bullets_resolve(bullet_views(old(bullets)@).take(i as int), init, now_ms);
                &&& bullet_views(kept@) == r.1
                &&& reg.list@ == r.0.enemies
                &&& *score == r.0.score
                &&& pickups@ == r.0.pickups
                &&& sounds@ == r.0.sounds
                &&& texts@ == r.0.texts
                &&& despawns@ == r.0.despawns
            }),
        decreases n - i,
    {
        proof {
            assert(bullet_views(old(bullets)@).take(i as int + 1).drop_last() =~= bullet_views(
                old(bullets)@,
            ).take(i as int));
            assert(bullet_views(old(bullets)@).take(i as int + 1).last() == old(
                bullets,
            )@[i as int]@);
            assert(old(bullets)@.skip(i as int)[0] == old(bullets)@[i as int]);
            assert(old(bullets)@.skip(i as int).remove(0) =~= old(bullets)@.skip(i as int + 1));
        }
        let mut b = bullets.remove(0);
        let ghost kepts = kept@;
        let pos = b.pos;
        let damage = b.damage;
        let pierce = b.piercing_left;
        let strike = skill_strike(
            reg,
            pos,
            BULLET_RADIUS,
            &mut b.already_hit,
            damage,
            pierce,
            now_ms,
            score,
            pickups,
            sounds,
            texts,
            despawns,
        );
        let hits = strike.0;
        if hits <= b.piercing_left {
            b.piercing_left = b.piercing_left - hits;
            kept.push(b);
            proof {
                assert(bullet_views(kept@) =~= bullet_views(kepts).push(
                    kept@[kept@.len() - 1]@,
                ));
            }
        }
        i += 1;
    }
    proof {
        assert(bullet_views(old(bullets)@).take(n as int) =~= bullet_views(old(bullets)@));
    }
    *bullets = kept;
}

} // verus!
