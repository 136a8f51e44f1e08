//! Damage application and the death side of the entity lifecycle.
//!
//! Damage is subtracted from the target immediately, never queued across the
//! tick.  Death handling fires exactly once, on the hit that brings health
//! from positive to zero or below: score is awarded, a pickup is spawned at
//! the target's last known position, a death sound is emitted, and the
//! target's id is queued for despawn.  Despawn requests are idempotent, so
//! a corpse struck again in the same tick is never double-handled.

use vstd::prelude::*;
use crate::enemy::{lemma_registry_subset_trans, registry_subset, Enemy, EnemyRegistry, remove_enemy_id};
use crate::events::{DamageText, SoundEffect};
use crate::geom::{circles_collide, collides, Vec2I, RADIUS_LIMIT};

verus! {

/// Score awarded for each enemy death.
pub const SCORE_PER_KILL: u32 = 10;

/// Experience carried by the pickup an enemy drops.
pub const EXP_ORB_VALUE: u64 = 10;

/// An experience pickup lying in the world, dropped on death.
#[derive(Clone, Copy, PartialEq, Eq, Structural, Debug)]
pub struct Pickup {
    pub pos: Vec2I,
    pub xp_value: u64,
}

/// Every pickup lies in the world.
pub open spec fn all_pickups_in_world(s: Seq<Pickup>) -> bool {
    forall|i: int| 0 <= i < s.len() ==> (#[trigger] s[i]).pos.in_world()
}

/// Health after taking a hit: plain subtraction, saturated at a floor well
/// below any meaningful value so the arithmetic can never wrap.  Health may
/// go negative (overkill); death handling answers for it in the same tick.
pub open spec fn sub_health_spec(h: int, d: int) -> int {
    if h - d < -2_000_000_000 {
        -2_000_000_000
    } else {
        h - d
    }
}

pub fn sub_health(h: i32, d: i32) -> (r: i32)
    requires
        -2_000_000_000 <= h,
        0 <= d <= 1_000_000,
    ensures
        r == sub_health_spec(h as int, d as int),
        -2_000_000_000 <= r <= h,
{
    let nh: i64 = (h as i64) - (d as i64);
    if nh < -2_000_000_000 {
        -2_000_000_000
    } else {
        nh as i32
    }
}

/// Score accrual, saturated at the counter's capacity.
pub open spec fn add_score_spec(s: int, d: int) -> int {
    if s + d > u32::MAX {
        u32::MAX as int
    } else {
        s + d
    }
}

pub fn add_score(s: u32, d: u32) -> (r: u32)
    ensures
        r == add_score_spec(s as int, d as int),
{
    if s > u32::MAX - d {
        u32::MAX
    } else {
        s + d
    }
}

/// Whether this hit is the killing one: health crosses from positive to
/// zero or below.  A later hit on the corpse is not a second death.
pub open spec fn enemy_dies(e: Enemy, amount: int) -> bool {
    e.health > 0 && sub_health_spec(e.health as int, amount) <= 0
}

/// The enemy record after taking the hit.
pub open spec fn enemy_damaged(e: Enemy, amount: int) -> Enemy {
    Enemy { health: sub_health_spec(e.health as int, amount) as i32, ..e }
}

/// Apply `amount` damage to the enemy at index `i`, leaving it in place.
/// Emits a hit sound and a damage text.  On the killing hit, exactly once:
/// score rises by `SCORE_PER_KILL`, one pickup appears at the target's last
/// known position, a death sound follows the hit sound, and the target's id
/// is queued for despawn.  Returns whether the target died.
pub fn damage_enemy_at(
    reg: &mut EnemyRegistry,
    i: usize,
    amount: i32,
    now_ms: u64,
    score: &mut u32,
    pickups: &mut Vec<Pickup>,
    sounds: &mut Vec<SoundEffect>,
    texts: &mut Vec<DamageText>,
    despawns: &mut Vec<u64>,
) -> (died: bool)
    requires
        old(reg).wf(),
        i < old(reg).list@.len(),
        0 <= amount <= 1_000_000,
        all_pickups_in_world(old(pickups)@),
    ensures
        final(reg).wf(),
        all_pickups_in_world(final(pickups)@),
        died == enemy_dies(old(reg).list@[i as int], amount as int),
        final(reg).list@ == old(reg).list@.update(
            i as int,
            enemy_damaged(old(reg).list@[i as int], amount as int),
        ),
        final(sounds)@ == if died {
            old(sounds)@.push(SoundEffect::EnemyHit).push(SoundEffect::EnemyDeath)
        } else {
            old(sounds)@.push(SoundEffect::EnemyHit)
        },
        final(texts)@ == old(texts)@.push(DamageText {
            pos: old(reg).list@[i as int].pos,
            amount,
            timestamp_ms: now_ms,
        }),
        died ==> {
            &&& *final(score) == add_score_spec(*old(score) as int, SCORE_PER_KILL as int)
            &&& final(pickups)@ == old(pickups)@.push(Pickup {
                pos: old(reg).list@[i as int].pos,
                xp_value: EXP_ORB_VALUE,
            })
            &&& final(despawns)@ == old(despawns)@.push(old(reg).list@[i as int].id)
        },
        !died ==> {
            &&& *final(score) == *old(score)
            &&& final(pickups)@ == old(pickups)@
            &&& final(despawns)@ == old(despawns)@
        },
{
    let target = reg.list[i];
    sounds.push(SoundEffect::EnemyHit);
    texts.push(DamageText { pos: target.pos, amount, timestamp_ms: now_ms });
    let nh: i32 = sub_health(target.health, amount);
    let died = target.health > 0 && nh <= 0;
    let mut e = target;
    e.health = nh;
    reg.list.set(i, e);
    proof {
        let s = old(reg).list@;
        let s2 = reg.list@;
        assert(forall|a: int, b: int|
            0 <= a < b < s2.len() ==> s2[a].id == s[a].id && s2[b].id == s[b].id);
    }
    if died {
        sounds.push(SoundEffect::EnemyDeath);
        *score = add_score(*score, SCORE_PER_KILL);
        pickups.push(Pickup { pos: target.pos, xp_value: EXP_ORB_VALUE });
        despawns.push(target.id);
    }
    died
}

/// The registry after a queue of despawn requests, applied in order.
pub open spec fn remove_ids(s: Seq<Enemy>, ids: Seq<u64>) -> Seq<Enemy>
    decreases ids.len(),
{
    if ids.len() == 0 {
        s
    } else {
        remove_ids(remove_enemy_id(s, ids[0]), ids.drop_first())
    }
}

/// Apply the queued despawn requests, in order, and drain the queue.
/// Requests are idempotent: two requests for one id remove one enemy; a
/// request for an id that is gone removes nothing.
pub fn apply_despawns(reg: &mut EnemyRegistry, despawns: &mut Vec<u64>)
    requires
        old(reg).wf(),
    ensures
        final(reg).wf(),
        final(reg).list@ == remove_ids(old(reg).list@, old(despawns)@),
        final(despawns)@.len() == 0,
        final(reg).list@.len() <= old(reg).list@.len(),
        registry_subset(final(reg).list@, old(reg).list@),
{
    let n: usize = despawns.len();
    let mut i: usize = 0;
    proof {
        assert(despawns@.skip(0) =~= despawns@);
        assert forall|a: int|
            0 <= a < reg.list@.len() implies old(reg).list@.contains(
            #[trigger] reg.list@[a],
        ) by {
            assert(reg.list@[a] == old(reg).list@[a]);
        }
        assert(registry_subset(reg.list@, old(reg).list@));
    }
    while i < n
        invariant
            reg.wf(),
            0 <= i <= n,
            n == despawns@.len(),
            despawns@ == old(despawns)@,
            reg.list@.len() <= old(reg).list@.len(),
            registry_subset(reg.list@, old(reg).list@),
            remove_ids(old(reg).list@, old(despawns)@) == remove_ids(
                reg.list@,
                despawns@.skip(i as int),
            ),
        decreases n - i,
    {
        proof {
            assert(despawns@.skip(i as int)[0] == despawns@[i as int]);
            assert(despawns@.skip(i as int).drop_first() =~= despawns@.skip(i as int + 1));
        }
        let id = despawns[i];
        let ghost before = reg.list@;
        reg.despawn(id);
        proof {
            lemma_registry_subset_trans(reg.list@, before, old(reg).list@);
        }
        i += 1;
    }
    proof {
        assert(despawns@.skip(n as int) =~= Seq::<u64>::empty());
    }
    despawns.clear();
}

/// The radius an attack gives its target: the target's own circle for solid
/// tests (projectiles, orbiters), zero for center-point tests (auras, area
/// bursts).
pub open spec fn volley_radius(e: Enemy, solid: bool) -> int {
    if solid {
        e.radius as int
    } else {
        0
    }
}

pub open spec fn volley_collides(pos: Vec2I, r: int, e: Enemy, solid: bool) -> bool {
    collides(pos, r, e.pos, volley_radius(e, solid))
}

/// How many of the first `j` enemies the attack reaches.
pub open spec fn volley_hits_before(s: Seq<Enemy>, pos: Vec2I, r: int, solid: bool, j: int) -> int
    decreases j,
{
    if j <= 0 {
        0
    } else {
        volley_hits_before(s, pos, r, solid, j - 1) + if volley_collides(
            pos,
            r,
            s[j - 1],
            solid,
        ) {
            1int
        } else {
            0int
        }
    }
}

/// Whether the enemy at index `j` is struck: it is in reach, and the attack
/// still has budget when the pass arrives at it (each strike consumes one
/// point of pierce budget; the strike that exhausts the budget is the last).
pub open spec fn volley_hit(
    s: Seq<Enemy>,
    pos: Vec2I,
    r: int,
    solid: bool,
    pierce: int,
    j: int,
) -> bool {
    &&& 0 <= j < s.len()
    &&& volley_collides(pos, r, s[j], solid)
    &&& volley_hits_before(s, pos, r, solid, j) <= pierce
}

/// Everything a resolution pass writes: the registry and the per-tick
/// output queues.
pub struct VolleyOut {
    pub enemies: Seq<Enemy>,
    pub score: int,
    pub pickups: Seq<Pickup>,
    pub sounds: Seq<SoundEffect>,
    pub texts: Seq<DamageText>,
    pub despawns: Seq<u64>,
}

/// The state of a resolution pass after it has considered the first `j`
/// enemies (`s` is the registry as the pass began, `init` the state of the
/// queues then).
pub open spec fn volley(
    s: Seq<Enemy>,
    pos: Vec2I,
    r: int,
    solid: bool,
    damage: int,
    pierce: int,
    now_ms: u64,
    init: VolleyOut,
    j: int,
) -> VolleyOut
    decreases j,
{
    if j <= 0 {
        init
    } else {
        let prev = volley(s, pos, r, solid, damage, pierce, now_ms, init, j - 1);
        if volley_hit(s, pos, r, solid, pierce, j - 1) {
            let e = s[j - 1];
            let died = enemy_dies(e, damage);
            VolleyOut {
                enemies: prev.enemies.update(j - 1, enemy_damaged(e, damage)),
                score: if died {
                    add_score_spec(prev.score, SCORE_PER_KILL as int)
                } else {
                    prev.score
                },
                pickups: if died {
                    prev.pickups.push(Pickup { pos: e.pos, xp_value: EXP_ORB_VALUE })
                } else {
                    prev.pickups
                },
                sounds: if died {
                    prev.sounds.push(SoundEffect::EnemyHit).push(SoundEffect::EnemyDeath)
                } else {
                    prev.sounds.push(SoundEffect::EnemyHit)
                },
                texts: prev.texts.push(DamageText {
                    pos: e.pos,
                    amount: damage as i32,
                    timestamp_ms: now_ms,
                }),
                despawns: if died {
                    prev.despawns.push(e.id)
                } else {
                    prev.despawns
                },
            }
        } else {
            prev
        }
    }
}

/// Reach counts never decrease along the pass.
pub proof fn lemma_volley_hits_mono(s: Seq<Enemy>, pos: Vec2I, r: int, solid: bool, a: int, b: int)
    requires
        a <= b,
    ensures
        volley_hits_before(s, pos, r, solid, a) <= volley_hits_before(s, pos, r, solid, b),
    decreases b - a,
{
    if a < b {
        lemma_volley_hits_mono(s, pos, r, solid, a, b - 1);
    }
}

/// Once nothing further is struck, the pass state stays put.
pub proof fn lemma_volley_stable(
    s: Seq<Enemy>,
    pos: Vec2I,
    r: int,
    solid: bool,
    damage: int,
    pierce: int,
    now_ms: u64,
    init: VolleyOut,
    cut: int,
    j: int,
)
    requires
        0 <= cut <= j,
        forall|k: int| cut <= k < j ==> !volley_hit(s, pos, r, solid, pierce, k),
    ensures
        volley(s, pos, r, solid, damage, pierce, now_ms, init, j) == volley(
            s,
            pos,
            r,
            solid,
            damage,
            pierce,
            now_ms,
            init,
            cut,
        ),
    decreases j - cut,
{
    if cut < j {
        lemma_volley_stable(s, pos, r, solid, damage, pierce, now_ms, init, cut, j - 1);
    }
}

/// One resolution pass of a single attacker against every live enemy, in
/// registry order.  Targets are struck while the pierce budget lasts: a
/// budget of `pierce` allows `pierce + 1` strikes, and the pass stops at the
/// strike that exhausts it.  Returns how many targets were struck; the
/// attacker is consumed exactly when the count exceeds `pierce`.
pub fn strike_in_radius(
    reg: &mut EnemyRegistry,
    pos: Vec2I,
    radius: i64,
    solid: bool,
    damage: i32,
    pierce: u32,
    now_ms: u64,
    score: &mut u32,
    pickups: &mut Vec<Pickup>,
    sounds: &mut Vec<SoundEffect>,
    texts: &mut Vec<DamageText>,
    despawns: &mut Vec<u64>,
) -> (hits: u32)
    requires
        old(reg).wf(),
        pos.in_world(),
        0 <= radius <= RADIUS_LIMIT,
        0 <= damage <= 1_000_000,
        pierce <= 2_000_000,
        old(reg).list@.len() <= 1_000_000,
        all_pickups_in_world(old(pickups)@),
    ensures
        final(reg).wf(),
        final(reg).list@.len() == old(reg).list@.len(),
        forall|k: int|
            0 <= k < final(reg).list@.len() ==> (#[trigger] final(reg).list@[k]).id == old(reg).list@[k].id,
        all_pickups_in_world(final(pickups)@),
        ({
            let out = volley(
                old(reg).list@,
                pos,
                radius as int,
                solid,
                damage as int,
                pierce as int,
                now_ms,
                VolleyOut {
                    enemies: old(reg).list@,
                    score: *old(score) as int,
                    pickups: old(pickups)@,
                    sounds: old(sounds)@,
                    texts: old(texts)@,
                    despawns: old(despawns)@,
                },
                old(reg).list@.len() as int,
            );
            &&& final(reg).list@ == out.enemies
            &&& *final(score) == out.score
            &&& final(pickups)@ == out.pickups
            &&& final(sounds)@ == out.sounds
            &&& final(texts)@ == out.texts
            &&& final(despawns)@ == out.despawns
        }),
        ({
            let total = volley_hits_before(
                old(reg).list@,
                pos,
                radius as int,
                solid,
                old(reg).list@.len() as int,
            );
            hits == if total > pierce {
                pierce + 1
            } else {
                total
            }
        }),
{
    let ghost s = reg.list@;
    let ghost init = VolleyOut {
        enemies: old(reg).list@,
        score: *old(score) as int,
        pickups: old(pickups)@,
        sounds: old(sounds)@,
        texts: old(texts)@,
        despawns: old(despawns)@,
    };
    let n: usize = reg.list.len();
    let mut j: usize = 0;
    let mut hits: u32 = 0;
    while j < n
        invariant
            reg.wf(),
            pos.in_world(),
            0 <= radius <= RADIUS_LIMIT,
            0 <= damage <= 1_000_000,
            pierce <= 2_000_000,
            0 <= j <= n,
            n == s.len(),
            n <= 1_000_000,
            s == old(reg).list@,
            init == (VolleyOut {
                enemies: old(reg).list@,
                score: *old(score) as int,
                pickups: old(pickups)@,
                sounds: old(sounds)@,
                texts: old(texts)@,
                despawns: old(despawns)@,
            }),
            reg.list@.len() == s.len(),
            all_pickups_in_world(pickups@),
            forall|k: int| j <= k < s.len() ==> reg.list@[k] == s[k],
            forall|k: int| 0 <= k < s.len() ==> (#[trigger] reg.list@[k]).id == s[k].id,
            hits == volley_hits_before(s, pos, radius as int, solid, j as int),
            hits <= pierce,
            ({
                let out = volley(
                    s,
                    pos,
                    radius as int,
                    solid,
                    damage as int,
                    pierce as int,
                    now_ms,
                    init,
                    j as int,
                );
                &&& reg.list@ == out.enemies
                &&& *score == out.score
                &&& pickups@ == out.pickups
                &&& sounds@ == out.sounds
                &&& texts@ == out.texts
                &&& despawns@ == out.despawns
            }),
        decreases n - j,
    {
        let e = reg.list[j];
        let er: i64 = if solid {
            e.radius
        } else {
            0
        };
        if circles_collide(pos, radius, e.pos, er) {
            damage_enemy_at(reg, j, damage, now_ms, score, pickups, sounds, texts, despawns);
            hits = hits + 1;
            if hits > pierce {
                proof {
                    assert(volley_hits_before(s, pos, radius as int, solid, j as int + 1) == pierce
                        + 1);
                    lemma_volley_hits_mono(s, pos, radius as int, solid, j as int + 1, s.len() as int);
                    assert(forall|k: int|
                        j as int + 1 <= k < s.len() ==> !volley_hit(
                            s,
                            pos,
                            radius as int,
                            solid,
                            pierce as int,
                            k,
                        )) by {
                        assert forall|k: int|
                            j as int + 1 <= k < s.len() implies !volley_hit(
                            s,
                            pos,
                            radius as int,
                            solid,
                            pierce as int,
                            k,
                        ) by {
                            lemma_volley_hits_mono(s, pos, radius as int, solid, j as int + 1, k);
                        }
                    }
                    lemma_volley_stable(
                        s,
                        pos,
                        radius as int,
                        solid,
                        damage as int,
                        pierce as int,
                        now_ms,
                        init,
                        j as int + 1,
                        s.len() as int,
                    );
                    assert(volley_hit(s, pos, radius as int, solid, pierce as int, j as int));
                }
                return hits;
            }
        }
        j += 1;
    }
    hits
}

} // verus!
