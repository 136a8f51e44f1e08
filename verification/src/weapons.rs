//! The aura weapon and the orbiting-projectile weapon.
//!
//! The aura damages every enemy within its radius on each tick of its damage
//! timer.  Orbiters circle the player at a parametric offset; their count is
//! reconciled against the weapon's target count, and each orbiter gates
//! repeat hits on a per-target cooldown list instead of an already-hit set.

use vstd::prelude::*;
use crate::enemy::{Enemy, EnemyRegistry};
use crate::events::{DamageText, SoundEffect};
use crate::geom::{
    circles_collide, orbit_offset, orbit_offset_spec, Vec2I, COORD_LIMIT, RADIUS_LIMIT,
};
use crate::resolve::{
    add_score_spec, all_pickups_in_world, damage_enemy_at, enemy_damaged, enemy_dies, Pickup,
    VolleyOut, EXP_ORB_VALUE, SCORE_PER_KILL,
};
use crate::timer::{Timer, TimerMode, MAX_TIME_MS};

verus! {

/// The player's damaging aura: a repeating tick timer and a radius.  While
/// active it damages every enemy within the radius on each timer edge; there
/// is no already-hit exclusion, the same target is struck on every tick.
#[derive(Clone, Copy, PartialEq, Eq, Structural, Debug)]
pub struct AoeAuraWeapon {
    pub damage_tick_timer: Timer,
    pub current_radius: i64,
    pub base_damage_per_tick: i32,
    pub is_active: bool,
}

impl AoeAuraWeapon {
    pub open spec fn wf(self) -> bool {
        &&& self.damage_tick_timer.wf()
        &&& self.damage_tick_timer.mode == TimerMode::Repeating
        &&& 0 <= self.current_radius <= RADIUS_LIMIT
        &&& 0 <= self.base_damage_per_tick <= 1_000_000
    }
}

impl Default for AoeAuraWeapon {
    /// A dormant aura with the base tick rate, radius and damage.
    fn default() -> (r: AoeAuraWeapon)
        ensures
            r.wf(),
            r == (AoeAuraWeapon {
                damage_tick_timer: Timer {
                    duration_ms: 500,
                    elapsed_ms: 0,
                    mode: TimerMode::Repeating,
                    paused: false,
                    finished: false,
                    just_finished: false,
                },
                current_radius: 75_000i64,
                base_damage_per_tick: 3i32,
                is_active: false,
            }),
    {
        AoeAuraWeapon {
            damage_tick_timer: Timer::new(500, TimerMode::Repeating),
            current_radius: 75_000,
            base_damage_per_tick: 3,
            is_active: false,
        }
    }
}

/// While the aura is active, tick its damage timer; on the edge, strike
/// every enemy whose center lies within the radius (a center-point test),
/// with full death handling per strike.
pub fn aoe_aura_weapon_system(
    aura: &mut AoeAuraWeapon,
    player_pos: Vec2I,
    reg: &mut EnemyRegistry,
    dt_ms: u64,
    now_ms: u64,
    score: &mut u32,
    pickups: &mut Vec<Pickup>,
    sounds: &mut Vec<SoundEffect>,
    texts: &mut Vec<DamageText>,
    despawns: &mut Vec<u64>,
)
    requires
        old(aura).wf(),
        old(reg).wf(),
        player_pos.in_world(),
        dt_ms <= MAX_TIME_MS,
        old(reg).list@.len() <= 1_000_000,
        all_pickups_in_world(old(pickups)@),
    ensures
        final(aura).wf(),
        final(reg).wf(),
        final(reg).list@.len() == old(reg).list@.len(),
        forall|k: int|
            0 <= k < final(reg).list@.len() ==> (#[trigger] final(reg).list@[k]).id == old(reg).list@[k].id,
        all_pickups_in_world(final(pickups)@),
        !old(aura).is_active ==> *final(aura) == *old(aura) && final(reg).list@ == old(reg).list@
            && *final(score) == *old(score) && final(pickups)@ == old(pickups)@ && final(sounds)@
            == old(sounds)@ && final(texts)@ == old(texts)@ && final(despawns)@ == old(despawns)@,
        old(aura).is_active ==> *final(aura) == (AoeAuraWeapon {
            damage_tick_timer: old(aura).damage_tick_timer.spec_tick(dt_ms),
            ..*old(aura)
        }),
        old(aura).is_active && !final(aura).damage_tick_timer.just_finished ==> final(reg).list@
            == old(reg).list@ && *final(score) == *old(score) && final(pickups)@ == old(pickups)@
            && final(sounds)@ == old(sounds)@ && final(texts)@ == old(texts)@ && final(despawns)@
            == old(despawns)@,
        old(aura).is_active && final(aura).damage_tick_timer.just_finished ==> ({
            let out = crate::resolve::volley(
                old(reg).list@,
                player_pos,
                old(aura).current_radius as int,
                false,
                old(aura).base_damage_per_tick as int,
                1_000_000,
                now_ms,
                VolleyOut {
                    enemies: old(reg).list@,
                    score: *old(score) as int,
                    pickups: old(pickups)@,
                    sounds: old(sounds)@,
                    texts: old(texts)@,
                    despawns: old(despawns)@,
                },
                old(reg).list@.len() as int,
            );
            &&& final(reg).list@ == out.enemies
            &&& *final(score) == out.score
            &&& final(pickups)@ == out.pickups
            &&& final(sounds)@ == out.sounds
            &&& final(texts)@ == out.texts
            &&& final(despawns)@ == out.despawns
        }),
{
    if !aura.is_active {
        return;
    }
    aura.damage_tick_timer.tick(dt_ms);
    if aura.damage_tick_timer.just_finished() {
        crate::resolve::strike_in_radius(
            reg,
            player_pos,
            aura.current_radius,
            false,
            aura.base_damage_per_tick,
            1_000_000,
            now_ms,
            score,
            pickups,
            sounds,
            texts,
            despawns,
        );
    }
}

/// The orbiting-projectile weapon's tunables: how many orbiters it wants
/// live, their orbit radius, angular speed (deci-degrees per second),
/// damage, and the per-target hit cooldown.
#[derive(Clone, Copy, PartialEq, Eq, Structural, Debug)]
pub struct OrbitingProjectileWeapon {
    pub is_active: bool,
    pub num_orbiters: u32,
    pub orbit_radius: i64,
    pub rotation_speed_ddps: u32,
    pub damage_per_hit: i32,
    pub hit_cooldown_ms: u64,
}

impl OrbitingProjectileWeapon {
    pub open spec fn wf(self) -> bool {
        &&& self.num_orbiters <= 3600
        &&& 0 <= self.orbit_radius <= RADIUS_LIMIT
        &&& self.rotation_speed_ddps <= 36_000_000
        &&& 0 <= self.damage_per_hit <= 1_000_000
        &&& 1 <= self.hit_cooldown_ms <= 1_000_000_000_000
    }
}

impl Default for OrbitingProjectileWeapon {
    /// A dormant weapon wanting no orbiters, with the base orbit: radius 80
    /// units, a quarter turn per second, 5 damage, 750 ms per-target
    /// cooldown.
    fn default() -> (r: OrbitingProjectileWeapon)
        ensures
            r.wf(),
            r == (OrbitingProjectileWeapon {
                is_active: false,
                num_orbiters: 0u32,
                orbit_radius: 80_000i64,
                rotation_speed_ddps: 900u32,
                damage_per_hit: 5i32,
                hit_cooldown_ms: 750u64,
            }),
    {
        OrbitingProjectileWeapon {
            is_active: false,
            num_orbiters: 0,
            orbit_radius: 80_000,
            rotation_speed_ddps: 900,
            damage_per_hit: 5,
            hit_cooldown_ms: 750,
        }
    }
}

/// One orbiter: its parametric angle around the owner, and the targets it
/// struck recently, each with the cooldown left before it may be struck
/// again.
#[derive(Clone, PartialEq, Eq, Debug)]
pub struct Orbiter {
    pub angle_dd: u32,
    pub cooldowns: Vec<(u64, Timer)>,
}

/// Collision radius of an orbiter, in milli-units.
pub const ORBITER_RADIUS: i64 = 16_000;

impl Orbiter {
    pub open spec fn wf(self) -> bool {
        &&& self.angle_dd < 3600
        &&& forall|i: int|
            0 <= i < self.cooldowns@.len() ==> (#[trigger] self.cooldowns@[i]).1.wf()
                && self.cooldowns@[i].1.mode == TimerMode::Once
    }
}

pub open spec fn all_orbiters_wf(s: Seq<Orbiter>) -> bool {
    forall|i: int| 0 <= i < s.len() ==> s[i].wf()
}

/// The angle slot of the `k`-th orbiter when the weapon wants `target` of
/// them: slots are spaced one `target`-th of a turn apart.
pub open spec fn orbiter_slot_angle(k: int, target: int) -> int {
    (k * (3600int / (if target < 1 {
        1int
    } else {
        target
    }))) % 3600
}

/// Reconcile the live orbiter count against the weapon's target count.
/// This runs only when the target changed.  An inactive weapon clears every
/// orbiter.  A deficit is filled with fresh orbiters at evenly spaced angle
/// slots, continuing from the count already live; a surplus despawns the
/// oldest orbiters; a matching count changes nothing.
pub fn manage_orbiters_system(orbiters: &mut Vec<Orbiter>, weapon: &OrbitingProjectileWeapon)
    requires
        all_orbiters_wf(old(orbiters)@),
        weapon.wf(),
        old(orbiters)@.len() <= 3600,
    ensures
        all_orbiters_wf(final(orbiters)@),
        !weapon.is_active ==> final(orbiters)@.len() == 0,
        weapon.is_active && old(orbiters)@.len() < weapon.num_orbiters ==> {
            &&& final(orbiters)@.len() == weapon.num_orbiters
            &&& (forall|i: int|
                0 <= i < old(orbiters)@.len() ==> final(orbiters)@[i] == old(orbiters)@[i])
            &&& (forall|k: int|
                old(orbiters)@.len() <= k < weapon.num_orbiters ==> (#[trigger] final(orbiters)@[k]).angle_dd
                    == orbiter_slot_angle(k, weapon.num_orbiters as int)
                    && final(orbiters)@[k].cooldowns@.len() == 0)
        },
        weapon.is_active && old(orbiters)@.len() > weapon.num_orbiters ==> final(orbiters)@ == old(
            orbiters,
        )@.skip(old(orbiters)@.len() - weapon.num_orbiters as int),
        weapon.is_active && old(orbiters)@.len() == weapon.num_orbiters ==> final(orbiters)@
            == old(orbiters)@,
{
    if !weapon.is_active {
        orbiters.clear();
        return;
    }
    let current: usize = orbiters.len();
    let target: usize = weapon.num_orbiters as usize;
    if current < target {
        let slot: u32 = 3600 / (if weapon.num_orbiters < 1 {
            1
        } else {
            weapon.num_orbiters
        });
        let mut k: usize = current;
        while k < target
            invariant
                all_orbiters_wf(orbiters@),
                current <= k <= target,
                target == weapon.num_orbiters,
                target <= 3600,
                slot == 3600u32 / (if weapon.num_orbiters < 1 {
                    1u32
                } else {
                    weapon.num_orbiters
                }),
                orbiters@.len() == k,
                forall|i: int| 0 <= i < current ==> orbiters@[i] == old(orbiters)@[i],
                forall|m: int|
                    current <= m < k ==> (#[trigger] orbiters@[m]).angle_dd == orbiter_slot_angle(
                        m,
                        weapon.num_orbiters as int,
                    ) && orbiters@[m].cooldowns@.len() == 0,
            decreases target - k,
        {
            let ku: u32 = k as u32;
            proof {
                assert(ku * slot <= 12_960_000) by (nonlinear_arith)
                    requires
                        ku <= 3600,
                        slot <= 3600,
                ;
            }
            let angle: u32 = (ku * slot) % 3600;
            orbiters.push(Orbiter { angle_dd: angle, cooldowns: Vec::new() });
            k += 1;
        }
    } else if current > target {
        let surplus: usize = current - target;
        let mut k: usize = 0;
        proof {
            assert(old(orbiters)@.skip(0) =~= old(orbiters)@);
        }
        while k < surplus
            invariant
                all_orbiters_wf(old(orbiters)@),
                0 <= k <= surplus,
                surplus <= current,
                current == old(orbiters)@.len(),
                orbiters@ == old(orbiters)@.skip(k as int),
                all_orbiters_wf(orbiters@),
            decreases surplus - k,
        {
            proof {
                assert(old(orbiters)@.skip(k as int).remove(0) =~= old(orbiters)@.skip(
                    k as int + 1,
                ));
            }
            orbiters.remove(0);
            k += 1;
        }
    }
}

/// Orbiter slots are evenly spaced: filling the weapon's target count from
/// an empty set places consecutive orbiters one `target`-th of a turn apart
/// (for three orbiters, 1200 deci-degrees, i.e. 120 degrees).
pub proof fn lemma_orbiters_evenly_spaced(k: int, target: int)
    requires
        1 <= target <= 3600,
        0 <= k < target - 1,
    ensures
        orbiter_slot_angle(k + 1, target) - orbiter_slot_angle(k, target) == 3600int / target,
{
    let step = 3600int / target;
    assert(1 <= step <= 3600 && target * step <= 3600) by (nonlinear_arith)
        requires
            1 <= target <= 3600,
            step == 3600int / target,
    ;
    assert(0 <= k * step && k * step <= 3600 - step && (k + 1) * step <= 3600 - step)
        by (nonlinear_arith)
        requires
            0 <= k < target - 1,
            1 <= step,
            target * step <= 3600,
    ;
    assert((k * step) % 3600 == k * step && ((k + 1) * step) % 3600 == (k + 1) * step)
        by (nonlinear_arith)
        requires
            0 <= k * step,
            0 <= (k + 1) * step,
            k * step <= 3600 - step,
            (k + 1) * step <= 3600 - step,
            1 <= step <= 3600,
    ;
    assert((k + 1) * step - k * step == step) by (nonlinear_arith);
}

/// One orbiter's angle after a movement tick: it advances by the weapon's
/// angular speed and wraps into a turn.
pub open spec fn orbiter_turned(o: Orbiter, w: OrbitingProjectileWeapon, dt_ms: u64) -> Orbiter {
    Orbiter { angle_dd: ((o.angle_dd + w.rotation_speed_ddps * dt_ms / 1000) % 3600) as u32, ..o }
}

/// The world position of an orbiter around its owner: the parametric offset
/// added to the owner's position, clamped into the world.
pub open spec fn orbiter_pos_spec(owner: Vec2I, w: OrbitingProjectileWeapon, o: Orbiter) -> Vec2I {
    Vec2I {
        x: crate::geom::clamp_coord(
            owner.x + orbit_offset_spec(w.orbit_radius as int, o.angle_dd as int).x,
        ) as i64,
        y: crate::geom::clamp_coord(
            owner.y + orbit_offset_spec(w.orbit_radius as int, o.angle_dd as int).y,
        ) as i64,
    }
}

/// The orbiter's world position, as executable code.
pub fn orbiter_pos(owner: Vec2I, w: &OrbitingProjectileWeapon, o: &Orbiter) -> (r: Vec2I)
    requires
        owner.in_world(),
        w.wf(),
        o.wf(),
    ensures
        r == orbiter_pos_spec(owner, *w, *o),
        r.in_world(),
{
    let off = orbit_offset(w.orbit_radius, o.angle_dd);
    let rx: i64 = owner.x + off.x;
    let ry: i64 = owner.y + off.y;
    let px: i64 = if rx < -COORD_LIMIT {
        -COORD_LIMIT
    } else if rx > COORD_LIMIT {
        COORD_LIMIT
    } else {
        rx
    };
    let py: i64 = if ry < -COORD_LIMIT {
        -COORD_LIMIT
    } else if ry > COORD_LIMIT {
        COORD_LIMIT
    } else {
        ry
    };
    Vec2I { x: px, y: py }
}

/// Advance every orbiter's angle for one tick.  Positions are parametric in
/// the angle, never integrated from a velocity.
pub fn orbiter_movement_system(
    orbiters: &mut Vec<Orbiter>,
    weapon: &OrbitingProjectileWeapon,
    dt_ms: u64,
)
    requires
        all_orbiters_wf(old(orbiters)@),
        weapon.wf(),
        dt_ms <= 100_000,
    ensures
        all_orbiters_wf(final(orbiters)@),
        final(orbiters)@.len() == old(orbiters)@.len(),
        forall|i: int|
            0 <= i < old(orbiters)@.len() ==> final(orbiters)@[i] == orbiter_turned(
                old(orbiters)@[i],
                *weapon,
                dt_ms,
            ),
{
    let n: usize = orbiters.len();
    let mut i: usize = 0;
    while i < n
        invariant
            all_orbiters_wf(old(orbiters)@),
            weapon.wf(),
            dt_ms <= 100_000,
            0 <= i <= n,
            n == old(orbiters)@.len(),
            orbiters@.len() == n,
            forall|m: int| i <= m < n ==> orbiters@[m] == old(orbiters)@[m],
            forall|m: int|
                0 <= m < i ==> orbiters@[m] == orbiter_turned(old(orbiters)@[m], *weapon, dt_ms),
        decreases n - i,
    {
        let spd: u64 = weapon.rotation_speed_ddps as u64;
        proof {
            assert(spd * dt_ms <= 3_600_000_000_000) by (nonlinear_arith)
                requires
                    spd <= 36_000_000,
                    dt_ms <= 100_000,
            ;
        }
        let sweep: u64 = spd * dt_ms / 1000;
        let mut o = orbiters.remove(i);
        let angle: u32 = (((o.angle_dd as u64) + sweep) % 3600) as u32;
        o.angle_dd = angle;
        orbiters.insert(i, o);
        i += 1;
    }
}

/// A per-target cooldown list after one tick: every timer advances, the
/// elapsed entries fall off.
pub open spec fn cooldowns_ticked(s: Seq<(u64, Timer)>, dt_ms: u64) -> Seq<(u64, Timer)>
    decreases s.len(),
{
    if s.len() == 0 {
        Seq::empty()
    } else {
        let rest = cooldowns_ticked(s.drop_last(), dt_ms);
        let t2 = s.last().1.spec_tick(dt_ms);
        if t2.finished {
            rest
        } else {
            rest.push((s.last().0, t2))
        }
    }
}

/// Whether a target id is still cooling down on this list.
pub open spec fn on_cooldown(s: Seq<(u64, Timer)>, id: u64) -> bool {
    exists|i: int| 0 <= i < s.len() && (#[trigger] s[i]).0 == id
}

pub open spec fn cooldown_list_wf(s: Seq<(u64, Timer)>) -> bool {
    forall|i: int|
        0 <= i < s.len() ==> (#[trigger] s[i]).1.wf() && s[i].1.mode == TimerMode::Once
}

fn cooldown_contains(cds: &Vec<(u64, Timer)>, id: u64) -> (r: bool)
    ensures
        r == on_cooldown(cds@, id),
{
    let n: usize = cds.len();
    let mut i: usize = 0;
    while i < n
        invariant
            0 <= i <= n,
            n == cds@.len(),
            forall|m: int| 0 <= m < i ==> (#[trigger] cds@[m]).0 != id,
        decreases n - i,
    {
        if cds[i].0 == id {
            return true;
        }
        i += 1;
    }
    false
}

/// The cooldown a target enters after an orbiter strikes it.
pub open spec fn spec_hit_cooldown(cd_ms: u64) -> Timer {
    Timer {
        duration_ms: cd_ms,
        elapsed_ms: 0,
        mode: TimerMode::Once,
        paused: false,
        finished: false,
        just_finished: false,
    }
}

/// Whether one orbiter pass strikes the enemy at index `j`: the circles
/// overlap and the target is not cooling down.
pub open spec fn orbit_hit(s: Seq<Enemy>, pos: Vec2I, cds: Seq<(u64, Timer)>, j: int) -> bool {
    &&& 0 <= j < s.len()
    &&& crate::resolve::volley_collides(pos, ORBITER_RADIUS as int, s[j], true)
    &&& !on_cooldown(cds, s[j].id)
}

/// One orbiter's pass after considering the first `j` enemies: the usual
/// resolution outputs, plus the cooldown list grown by one fresh entry per
/// struck target, in order.
pub open spec fn orbit_volley(
    s: Seq<Enemy>,
    pos: Vec2I,
    damage: int,
    cds: Seq<(u64, Timer)>,
    cd_ms: u64,
    now_ms: u64,
    init: VolleyOut,
    j: int,
) -> (VolleyOut, Seq<(u64, Timer)>)
    decreases j,
{
    if j <= 0 {
        (init, cds)
    } else {
        let prev = orbit_volley(s, pos, damage, cds, cd_ms, now_ms, init, j - 1);
        if orbit_hit(s, pos, cds, j - 1) {
            let e = s[j - 1];
            let died = enemy_dies(e, damage);
            (
                VolleyOut {
                    enemies: prev.0.enemies.update(j - 1, enemy_damaged(e, damage)),
                    score: if died {
                        add_score_spec(prev.0.score, SCORE_PER_KILL as int)
                    } else {
                        prev.0.score
                    },
                    pickups: if died {
                        prev.0.pickups.push(Pickup { pos: e.pos, xp_value: EXP_ORB_VALUE })
                    } else {
                        prev.0.pickups
                    },
                    sounds: if died {
                        prev.0.sounds.push(SoundEffect::EnemyHit).push(SoundEffect::EnemyDeath)
                    } else {
                        prev.0.sounds.push(SoundEffect::EnemyHit)
                    },
                    texts: prev.0.texts.push(crate::events::DamageText {
                        pos: e.pos,
                        amount: damage as i32,
                        timestamp_ms: now_ms,
                    }),
                    despawns: if died {
                        prev.0.despawns.push(e.id)
                    } else {
                        prev.0.despawns
                    },
                },
                prev.1.push((e.id, spec_hit_cooldown(cd_ms))),
            )
        } else {
            prev
        }
    }
}

/// Along one orbiter's pass, the cooldown list only grows: the initial
/// entries stay in place, and every added entry carries the id of an enemy
/// already considered.
pub proof fn lemma_orbit_volley_cds(
    s: Seq<Enemy>,
    pos: Vec2I,
    damage: int,
    cds: Seq<(u64, Timer)>,
    cd_ms: u64,
    now_ms: u64,
    init: VolleyOut,
    j: int,
)
    requires
        0 <= j <= s.len(),
    ensures
        ({
            let r1 = orbit_volley(s, pos, damage, cds, cd_ms, now_ms, init, j).1;
            &&& cds.len() <= r1.len()
            &&& (forall|m: int| 0 <= m < cds.len() ==> r1[m] == cds[m])
            &&& (forall|m: int|
                cds.len() <= m < r1.len() ==> exists|k: int|
                    0 <= k < j && (#[trigger] r1[m]).0 == s[k].id)
        }),
    decreases j,
{
    if j > 0 {
        lemma_orbit_volley_cds(s, pos, damage, cds, cd_ms, now_ms, init, j - 1);
    }
}

/// One orbiter's full pass over the registry: strike every enemy in reach
/// that is not cooling down, with full death handling per strike, and put
/// each struck target on cooldown.
fn orbiter_strike(
    reg: &mut EnemyRegistry,
    pos: Vec2I,
    damage: i32,
    cds: &mut Vec<(u64, Timer)>,
    cd_ms: u64,
    now_ms: u64,
    score: &mut u32,
    pickups: &mut Vec<Pickup>,
    sounds: &mut Vec<SoundEffect>,
    texts: &mut Vec<DamageText>,
    despawns: &mut Vec<u64>,
)
    requires
        old(reg).wf(),
        pos.in_world(),
        0 <= damage <= 1_000_000,
        1 <= cd_ms <= 1_000_000_000_000,
        cooldown_list_wf(old(cds)@),
        all_pickups_in_world(old(pickups)@),
    ensures
        final(reg).wf(),
        final(reg).list@.len() == old(reg).list@.len(),
        forall|k: int|
            0 <= k < final(reg).list@.len() ==> (#[trigger] final(reg).list@[k]).id == old(reg).list@[k].id,
        cooldown_list_wf(final(cds)@),
        all_pickups_in_world(final(pickups)@),
        ({
            let r = orbit_volley(
                old(reg).list@,
                pos,
                damage as int,
                old(cds)@,
                cd_ms,
                now_ms,
                VolleyOut {
                    enemies: old(reg).list@,
                    score: *old(score) as int,
                    pickups: old(pickups)@,
                    sounds: old(sounds)@,
                    texts: old(texts)@,
                    despawns: old(despawns)@,
                },
                old(reg).list@.len() as int,
            );
            &&& final(reg).list@ == r.0.enemies
            &&& *final(score) == r.0.score
            &&& final(pickups)@ == r.0.pickups
            &&& final(sounds)@ == r.0.sounds
            &&& final(texts)@ == r.0.texts
            &&& final(despawns)@ == r.0.despawns
            &&& final(cds)@ == r.1
        }),
{
    let ghost s = reg.list@;
    let ghost cds0 = cds@;
    let ghost init = VolleyOut {
        enemies: old(reg).list@,
        score: *old(score) as int,
        pickups: old(pickups)@,
        sounds: old(sounds)@,
        texts: old(texts)@,
        despawns: old(despawns)@,
    };
    let n: usize = reg.list.len();
    let mut j: usize = 0;
    while j < n
        invariant
            reg.wf(),
            pos.in_world(),
            0 <= damage <= 1_000_000,
            1 <= cd_ms <= 1_000_000_000_000,
            0 <= j <= n,
            n == s.len(),
            s == old(reg).list@,
            crate::enemy::unique_ids(s),
            cds0 == old(cds)@,
            cooldown_list_wf(cds0),
            cooldown_list_wf(cds@),
            init == (VolleyOut {
                enemies: old(reg).list@,
                score: *old(score) as int,
                pickups: old(pickups)@,
                sounds: old(sounds)@,
                texts: old(texts)@,
                despawns: old(despawns)@,
            }),
            reg.list@.len() == s.len(),
            all_pickups_in_world(pickups@),
            forall|k: int| j <= k < s.len() ==> reg.list@[k] == s[k],
            forall|k: int| 0 <= k < s.len() ==> (#[trigger] reg.list@[k]).id == s[k].id,
            ({
                let r = orbit_volley(s, pos, damage as int, cds0, cd_ms, now_ms, init, j as int);
                &&& reg.list@ == r.0.enemies
                &&& *score == r.0.score
                &&& pickups@ == r.0.pickups
                &&& sounds@ == r.0.sounds
                &&& texts@ == r.0.texts
                &&& despawns@ == r.0.despawns
                &&& cds@ == r.1
            }),
        decreases n - j,
    {
        let e = reg.list[j];
        if circles_collide(pos, ORBITER_RADIUS, e.pos, e.radius) {
            proof {
                lemma_orbit_volley_cds(s, pos, damage as int, cds0, cd_ms, now_ms, init, j as int);
            }
            if !cooldown_contains(cds, e.id) {
                proof {
                    assert(!on_cooldown(cds0, e.id)) by {
                        if on_cooldown(cds0, e.id) {
                            let m = choose|m: int|
                                0 <= m < cds0.len() && (#[trigger] cds0[m]).0 == e.id;
                            assert(cds@[m] == cds0[m]);
                        }
                    }
                    assert(orbit_hit(s, pos, cds0, j as int));
                }
                damage_enemy_at(reg, j, damage, now_ms, score, pickups, sounds, texts, despawns);
                cds.push((e.id, Timer::new(cd_ms, TimerMode::Once)));
            } else {
                proof {
                    assert(on_cooldown(cds0, e.id)) by {
                        let m = choose|m: int|
                            0 <= m < cds@.len() && (#[trigger] cds@[m]).0 == e.id;
                        if m < cds0.len() {
                            assert(cds0[m] == cds@[m]);
                        } else {
                            let k = choose|k: int|
                                0 <= k < j && (#[trigger] cds@[m]).0 == s[k].id;
                            assert(s[k].id == s[j as int].id);
                            assert(false);
                        }
                    }
                    assert(!orbit_hit(s, pos, cds0, j as int));
                }
            }
        }
        j += 1;
    }
}

/// The outcome of every orbiter's pass, in order: the resolution outputs
/// after the last pass, and each orbiter's new cooldown list.
pub open spec fn orbiters_resolve(
    os: Seq<Orbiter>,
    w: OrbitingProjectileWeapon,
    player_pos: Vec2I,
    dt_ms: u64,
    now_ms: u64,
    st: VolleyOut,
) -> (VolleyOut, Seq<Seq<(u64, Timer)>>)
    decreases os.len(),
{
    if os.len() == 0 {
        (st, Seq::empty())
    } else {
        let prev = orbiters_resolve(os.drop_last(), w, player_pos, dt_ms, now_ms, st);
        let o = os.last();
        let cds = cooldowns_ticked(o.cooldowns@, dt_ms);
        let pos = orbiter_pos_spec(player_pos, w, o);
        let r = orbit_volley(
            prev.0.enemies,
            pos,
            w.damage_per_hit as int,
            cds,
            w.hit_cooldown_ms,
            now_ms,
            prev.0,
            prev.0.enemies.len() as int,
        );
        (r.0, prev.1.push(r.1))
    }
}

/// Each orbiter of the pass yields exactly one cooldown list.
pub proof fn lemma_orbiters_resolve_len(
    os: Seq<Orbiter>,
    w: OrbitingProjectileWeapon,
    player_pos: Vec2I,
    dt_ms: u64,
    now_ms: u64,
    st: VolleyOut,
)
    ensures
        orbiters_resolve(os, w, player_pos, dt_ms, now_ms, st).1.len() == os.len(),
    decreases os.len(),
{
    if os.len() > 0 {
        lemma_orbiters_resolve_len(os.drop_last(), w, player_pos, dt_ms, now_ms, st);
    }
}

/// Every orbiter strikes the enemies it overlaps, in orbiter order.  First
/// each orbiter's cooldown list ticks (elapsed entries fall off); then each
/// enemy in reach and off cooldown takes the weapon's damage, with full
/// death handling, and goes on cooldown for the weapon's cooldown span —
/// orbiters strike the same target again, but no faster than that.
pub fn orbiter_collision_system(
    orbiters: &mut Vec<Orbiter>,
    weapon: &OrbitingProjectileWeapon,
    player_pos: Vec2I,
    reg: &mut EnemyRegistry,
    dt_ms: u64,
    now_ms: u64,
    score: &mut u32,
    pickups: &mut Vec<Pickup>,
    sounds: &mut Vec<SoundEffect>,
    texts: &mut Vec<DamageText>,
    despawns: &mut Vec<u64>,
)
    requires
        all_orbiters_wf(old(orbiters)@),
        weapon.wf(),
        old(reg).wf(),
        player_pos.in_world(),
        dt_ms <= MAX_TIME_MS,
        all_pickups_in_world(old(pickups)@),
    ensures
        all_orbiters_wf(final(orbiters)@),
        final(reg).wf(),
        final(reg).list@.len() == old(reg).list@.len(),
        forall|k: int|
            0 <= k < final(reg).list@.len() ==> (#[trigger] final(reg).list@[k]).id == old(reg).list@[k].id,
        all_pickups_in_world(final(pickups)@),
        !weapon.is_active ==> final(orbiters)@ == old(orbiters)@
            && final(reg).list@ == old(reg).list@ && *final(score) == *old(score)
            && final(pickups)@ == old(pickups)@ && final(sounds)@ == old(sounds)@
            && final(texts)@ == old(texts)@ && final(despawns)@ == old(despawns)@,
        weapon.is_active ==> ({
            let r = orbiters_resolve(
                old(orbiters)@,
                *weapon,
                player_pos,
                dt_ms,
                now_ms,
                VolleyOut {
                    enemies: old(reg).list@,
                    score: *old(score) as int,
                    pickups: old(pickups)@,
                    sounds: old(sounds)@,
                    texts: old(texts)@,
                    despawns: old(despawns)@,
                },
            );
            &&& final(reg).list@ == r.0.enemies
            &&& *final(score) == r.0.score
            &&& final(pickups)@ == r.0.pickups
            &&& final(sounds)@ == r.0.sounds
            &&& final(texts)@ == r.0.texts
            &&& final(despawns)@ == r.0.despawns
            &&& final(orbiters)@.len() == old(orbiters)@.len()
            &&& (forall|i: int|
                0 <= i < old(orbiters)@.len() ==> (#[trigger] final(orbiters)@[i]).angle_dd == old(
                    orbiters,
                )@[i].angle_dd && final(orbiters)@[i].cooldowns@ == r.1[i])
        }),
{
    if !weapon.is_active {
        return;
    }
    let ghost init = VolleyOut {
        enemies: old(reg).list@,
        score: *old(score) as int,
        pickups: old(pickups)@,
        sounds: old(sounds)@,
        texts: old(texts)@,
        despawns: old(despawns)@,
    };
    let n: usize = orbiters.len();
    let mut out: Vec<Orbiter> = Vec::new();
    let mut i: usize = 0;
    proof {
        assert(old(orbiters)@.take(0) =~= Seq::<Orbiter>::empty());
        assert(old(orbiters)@.skip(0) =~= old(orbiters)@);
    }
    while i < n
        invariant
            all_orbiters_wf(old(orbiters)@),
            weapon.wf(),
            player_pos.in_world(),
            dt_ms <= MAX_TIME_MS,
            0 <= i <= n,
            n == old(orbiters)@.len(),
            orbiters@ == old(orbiters)@.skip(i as int),
            reg.wf(),
            reg.list@.len() == old(reg).list@.len(),
            forall|k: int|
                0 <= k < reg.list@.len() ==> (#[trigger] reg.list@[k]).id == old(reg).list@[k].id,
            all_pickups_in_world(pickups@),
            all_orbiters_wf(out@),
            init == (VolleyOut {
                enemies: old(reg).list@,
                score: *old(score) as int,
                pickups: old(pickups)@,
                sounds: old(sounds)@,
                texts: old(texts)@,
                despawns: old(despawns)@,
            }),
            ({
                let r = orbiters_resolve(
                    old(orbiters)@.take(i as int),
                    *weapon,
                    player_pos,
                    dt_ms,
                    now_ms,
                    init,
                );
                &&& reg.list@ == r.0.enemies
                &&& *score == r.0.score
                &&& pickups@ == r.0.pickups
                &&& sounds@ == r.0.sounds
                &&& texts@ == r.0.texts
                &&& despawns@ == r.0.despawns
                &&& out@.len() == i
                &&& (forall|m: int|
                    0 <= m < i ==> (#[trigger] out@[m]).angle_dd == old(orbiters)@[m].angle_dd
                        && out@[m].cooldowns@ == r.1[m])
            }),
        decreases n - i,
    {
        proof {
            assert(old(orbiters)@.take(i as int + 1).drop_last() =~= old(orbiters)@.take(i as int));
            assert(old(orbiters)@.take(i as int + 1).last() == old(orbiters)@[i as int]);
            assert(old(orbiters)@.skip(i as int)[0] == old(orbiters)@[i as int]);
            assert(old(orbiters)@.skip(i as int).remove(0) =~= old(orbiters)@.skip(i as int + 1));
        }
        let o = orbiters.remove(0);
        let pos = orbiter_pos(player_pos, weapon, &o);
        let angle = o.angle_dd;
        let mut cds = o.cooldowns;
        tick_cooldown_list(&mut cds, dt_ms);
        orbiter_strike(
            reg,
            pos,
            weapon.damage_per_hit,
            &mut cds,
            weapon.hit_cooldown_ms,
            now_ms,
            score,
            pickups,
            sounds,
            texts,
            despawns,
        );
        out.push(Orbiter { angle_dd: angle, cooldowns: cds });
        proof {
            lemma_orbiters_resolve_len(
                old(orbiters)@.take(i as int),
                *weapon,
                player_pos,
                dt_ms,
                now_ms,
                init,
            );
            lemma_orbiters_resolve_len(
                old(orbiters)@.take(i as int + 1),
                *weapon,
                player_pos,
                dt_ms,
                now_ms,
                init,
            );
            let prev = orbiters_resolve(
                old(orbiters)@.take(i as int),
                *weapon,
                player_pos,
                dt_ms,
                now_ms,
                init,
            );
            let og = old(orbiters)@[i as int];
            let tcds = cooldowns_ticked(og.cooldowns@, dt_ms);
            let ppos2 = orbiter_pos_spec(player_pos, *weapon, og);
            let rr = orbit_volley(
                prev.0.enemies,
                ppos2,
                weapon.damage_per_hit as int,
                tcds,
                weapon.hit_cooldown_ms,
                now_ms,
                prev.0,
                prev.0.enemies.len() as int,
            );
            assert(pos == ppos2);
            assert(cds@ == rr.1);
            assert(reg.list@ == rr.0.enemies);
            assert(*score == rr.0.score);
            assert(out@[i as int].cooldowns@ == rr.1);
        }
        i += 1;
    }
    proof {
        assert(old(orbiters)@.take(n as int) =~= old(orbiters)@);
    }
    *orbiters = out;
}

/// Tick every entry of a cooldown list; elapsed entries fall off.
fn tick_cooldown_list(cds: &mut Vec<(u64, Timer)>, dt_ms: u64)
    requires
        cooldown_list_wf(old(cds)@),
        dt_ms <= MAX_TIME_MS,
    ensures
        cooldown_list_wf(final(cds)@),
        final(cds)@ == cooldowns_ticked(old(cds)@, dt_ms),
{
    let n: usize = cds.len();
    let mut kept: Vec<(u64, Timer)> = Vec::new();
    let mut i: usize = 0;
    proof {
        assert(old(cds)@.take(0) =~= Seq::<(u64, Timer)>::empty());
    }
    while i < n
        invariant
            cooldown_list_wf(old(cds)@),
            dt_ms <= MAX_TIME_MS,
            0 <= i <= n,
            n == old(cds)@.len(),
            cds@ == old(cds)@,
            cooldown_list_wf(kept@),
            kept@ == cooldowns_ticked(old(cds)@.take(i as int), dt_ms),
        decreases n - i,
    {
        proof {
            assert(old(cds)@.take(i as int + 1).drop_last() =~= old(cds)@.take(i as int));
            assert(old(cds)@.take(i as int + 1).last() == old(cds)@[i as int]);
        }
        let (id, mut t) = cds[i];
        t.tick(dt_ms);
        if !t.finished() {
            kept.push((id, t));
        }
        i += 1;
    }
    proof {
        assert(old(cds)@.take(n as int) =~= old(cds)@);
    }
    *cds = kept;
}

} // verus!
