//! Active skills: the catalog of definitions, the player's skill instances
//! with cooldown bookkeeping, and the skill projectile subsystem with
//! piercing and chain-bounce retargeting.

use vstd::prelude::*;
use crate::enemy::{Enemy, EnemyRegistry};
use crate::events::{DamageText, SoundEffect};
use crate::geom::{
    circles_collide, dist_sq, distance_squared, norm_scaled, norm_scaled_spec, Vec2I,
    RADIUS_LIMIT, VEL_LIMIT,
};
use crate::resolve::{
    add_score_spec, all_pickups_in_world, damage_enemy_at, enemy_damaged, enemy_dies,
    volley_collides, Pickup, VolleyOut, EXP_ORB_VALUE, SCORE_PER_KILL,
};
use crate::timer::{Timer, TimerMode, MAX_TIME_MS};

verus! {

#[derive(Clone, Copy, PartialEq, Eq, Structural, Debug, Hash)]
pub struct SkillId(pub u32);

/// The closed set of skill effects, matched exhaustively at application
/// time.  Radii and speeds are milli-units, times milliseconds, multipliers
/// percent.
#[derive(Clone, Copy, PartialEq, Eq, Structural, Debug)]
pub enum SkillEffectType {
    Projectile {
        base_damage: i32,
        speed: i64,
        radius: i64,
        lifetime_ms: u64,
        piercing: u32,
    },
    AreaOfEffect {
        base_damage_per_tick: i32,
        base_radius: i64,
        tick_interval_ms: u64,
        duration_ms: u64,
    },
    SurvivorBuff {
        speed_bonus_pct: u32,
        fire_rate_bonus_pct: u32,
        duration_ms: u64,
    },
    SummonSentry {
        sentry_damage_per_tick: i32,
        sentry_radius: i64,
        sentry_tick_interval_ms: u64,
        sentry_duration_ms: u64,
    },
    FreezingNova {
        damage: i32,
        radius: i64,
        nova_duration_ms: u64,
        slow_mult_pct: u32,
        slow_duration_ms: u64,
    },
}

/// A static catalog entry.
#[derive(Clone, Debug)]
pub struct SkillDefinition {
    pub id: SkillId,
    pub name: String,
    pub description: String,
    pub base_cooldown_ms: u64,
    pub effect: SkillEffectType,
    pub base_glyph_slots: u8,
}

/// The player's mutable state for one equipped skill: its cooldown,
/// level, flat bonuses and modifier slots.
#[derive(Clone, PartialEq, Eq, Debug)]
pub struct ActiveSkillInstance {
    pub definition_id: SkillId,
    pub current_cooldown_ms: u64,
    pub current_level: u32,
    pub flat_damage_bonus: i32,
    pub cooldown_multiplier_pct: u32,
    pub aoe_radius_multiplier_pct: u32,
    pub equipped_glyphs: Vec<Option<u32>>,
}

impl ActiveSkillInstance {
    pub open spec fn wf(self) -> bool {
        &&& 1 <= self.cooldown_multiplier_pct <= 10_000
        &&& 100 <= self.aoe_radius_multiplier_pct <= 100_000
        &&& 0 <= self.flat_damage_bonus <= 900_000
    }

    /// A fresh instance: ready to cast, level one, no bonuses, the given
    /// number of empty modifier slots.
    pub fn new(definition_id: SkillId, base_glyph_slots: u8) -> (r: ActiveSkillInstance)
        ensures
            r.wf(),
            r.definition_id == definition_id,
            r.current_cooldown_ms == 0,
            r.current_level == 1,
            r.flat_damage_bonus == 0,
            r.cooldown_multiplier_pct == 100,
            r.aoe_radius_multiplier_pct == 100,
            r.equipped_glyphs@.len() == base_glyph_slots,
            forall|i: int|
                0 <= i < r.equipped_glyphs@.len() ==> r.equipped_glyphs@[i] is None,
    {
        let mut glyphs: Vec<Option<u32>> = Vec::new();
        let mut i: u8 = 0;
        while i < base_glyph_slots
            invariant
                0 <= i <= base_glyph_slots,
                glyphs@.len() == i,
                forall|m: int| 0 <= m < glyphs@.len() ==> glyphs@[m] is None,
            decreases base_glyph_slots - i,
        {
            glyphs.push(Option::None);
            i += 1;
        }
        ActiveSkillInstance {
            definition_id,
            current_cooldown_ms: 0,
            current_level: 1,
            flat_damage_bonus: 0,
            cooldown_multiplier_pct: 100,
            aoe_radius_multiplier_pct: 100,
            equipped_glyphs: glyphs,
        }
    }

    /// Recharge: the remaining cooldown shrinks by the delta, saturating at
    /// zero.
    pub fn tick_cooldown(&mut self, delta_ms: u64)
        ensures
            final(self).current_cooldown_ms == if old(self).current_cooldown_ms >= delta_ms {
                old(self).current_cooldown_ms - delta_ms
            } else {
                0
            },
            *final(self) == (ActiveSkillInstance {
                current_cooldown_ms: final(self).current_cooldown_ms,
                ..*old(self)
            }),
    {
        if self.current_cooldown_ms >= delta_ms {
            self.current_cooldown_ms = self.current_cooldown_ms - delta_ms;
        } else {
            self.current_cooldown_ms = 0;
        }
    }

    /// A skill is ready exactly when its cooldown has fully drained.
    pub fn is_ready(&self) -> (r: bool)
        ensures
            r == (self.current_cooldown_ms == 0),
    {
        self.current_cooldown_ms == 0
    }

    /// Start the cooldown after a cast: the base cooldown scaled by the
    /// instance's multiplier, never below 100 ms.
    pub fn trigger(&mut self, base_cooldown_ms: u64)
        requires
            old(self).wf(),
            base_cooldown_ms <= 1_000_000_000,
        ensures
            final(self).current_cooldown_ms == spec_triggered_cooldown(
                base_cooldown_ms as int,
                old(self).cooldown_multiplier_pct as int,
            ),
            *final(self) == (ActiveSkillInstance {
                current_cooldown_ms: final(self).current_cooldown_ms,
                ..*old(self)
            }),
    {
        let mult: u64 = self.cooldown_multiplier_pct as u64;
        proof {
            assert(base_cooldown_ms * mult <= 10_000_000_000_000) by (nonlinear_arith)
                requires
                    base_cooldown_ms <= 1_000_000_000,
                    mult <= 10_000,
            ;
        }
        let scaled: u64 = base_cooldown_ms * mult / 100;
        self.current_cooldown_ms = if scaled < 100 {
            100
        } else {
            scaled
        };
    }
}

/// The cooldown a cast leaves behind: base times the multiplier (percent),
/// floored at 100 ms.
pub open spec fn spec_triggered_cooldown(base_ms: int, mult_pct: int) -> int {
    let scaled = base_ms * mult_pct / 100;
    if scaled < 100 {
        100
    } else {
        scaled
    }
}

/// The process-wide skill catalog, read-only after initialization.
pub struct SkillLibrary {
    pub skills: Vec<SkillDefinition>,
}

/// The index of the first catalog entry carrying the id.
pub open spec fn spec_find_skill(s: Seq<SkillDefinition>, id: SkillId) -> Option<int>
    decreases s.len(),
{
    if s.len() == 0 {
        Option::None
    } else if s[0].id == id {
        Option::Some(0int)
    } else {
        match spec_find_skill(s.drop_first(), id) {
            Option::Some(i) => Option::Some(i + 1),
            Option::None => Option::None,
        }
    }
}

pub proof fn lemma_find_skill_some(s: Seq<SkillDefinition>, id: SkillId, idx: int)
    requires
        0 <= idx < s.len(),
        s[idx].id == id,
        forall|k: int| 0 <= k < idx ==> (#[trigger] s[k]).id != id,
    ensures
        spec_find_skill(s, id) == Option::Some(idx),
    decreases idx,
{
    let rest = s.drop_first();
    assert(forall|i: int| 0 <= i < rest.len() ==> rest[i] == s[i + 1]);
    if idx > 0 {
        lemma_find_skill_some(rest, id, idx - 1);
    }
}

pub proof fn lemma_find_skill_none(s: Seq<SkillDefinition>, id: SkillId)
    requires
        forall|k: int| 0 <= k < s.len() ==> (#[trigger] s[k]).id != id,
    ensures
        spec_find_skill(s, id) is None,
    decreases s.len(),
{
    if s.len() > 0 {
        let rest = s.drop_first();
        assert(forall|i: int| 0 <= i < rest.len() ==> rest[i] == s[i + 1]);
        lemma_find_skill_none(rest, id);
    }
}

/// A found index is in range and carries the id.
pub proof fn lemma_find_skill_in_range(s: Seq<SkillDefinition>, id: SkillId)
    ensures
        match spec_find_skill(s, id) {
            Option::Some(i) => 0 <= i < s.len() && s[i].id == id,
            Option::None => true,
        },
    decreases s.len(),
{
    if s.len() > 0 && s[0].id != id {
        let rest = s.drop_first();
        assert(forall|i: int| 0 <= i < rest.len() ==> rest[i] == s[i + 1]);
        lemma_find_skill_in_range(rest, id);
    }
}

impl SkillLibrary {
    /// Look a definition up by id: the first entry with the id, or nothing.
    pub fn get_skill_definition(&self, id: SkillId) -> (r: Option<&SkillDefinition>)
        ensures
            match spec_find_skill(self.skills@, id) {
                Option::Some(i) => r matches Option::Some(d) && d == &self.skills@[i],
                Option::None => r is None,
            },
    {
        let n: usize = self.skills.len();
        let mut i: usize = 0;
        while i < n
            invariant
                0 <= i <= n,
                n == self.skills@.len(),
                forall|k: int| 0 <= k < i ==> (#[trigger] self.skills@[k]).id != id,
            decreases n - i,
        {
            if self.skills[i].id.0 == id.0 {
                proof {
                    lemma_find_skill_some(self.skills@, id, i as int);
                }
                return Option::Some(&self.skills[i]);
            }
            i += 1;
        }
        proof {
            lemma_find_skill_none(self.skills@, id);
        }
        Option::None
    }
}

/// The id, base cooldown, effect and modifier-slot count of the `i`-th
/// catalog skill.
pub open spec fn spec_skill_entry(i: int) -> (SkillId, u64, SkillEffectType, u8) {
    if i == 0 {
        (
            SkillId(1),
            1500u64,
            SkillEffectType::Projectile {
                base_damage: 25,
                speed: 650_000,
                radius: 14_000,
                lifetime_ms: 2500,
                piercing: 0,
            },
            2u8,
        )
    } else if i == 1 {
        (
            SkillId(2),
            4000u64,
            SkillEffectType::AreaOfEffect {
                base_damage_per_tick: 35,
                base_radius: 175_000,
                tick_interval_ms: 100,
                duration_ms: 200,
            },
            1u8,
        )
    } else if i == 2 {
        (
            SkillId(3),
            2500u64,
            SkillEffectType::Projectile {
                base_damage: 40,
                speed: 400_000,
                radius: 20_000,
                lifetime_ms: 3000,
                piercing: 2,
            },
            2u8,
        )
    } else if i == 3 {
        (
            SkillId(4),
            20_000u64,
            SkillEffectType::SurvivorBuff {
                speed_bonus_pct: 30,
                fire_rate_bonus_pct: 25,
                duration_ms: 5000,
            },
            0u8,
        )
    } else if i == 4 {
        (
            SkillId(5),
            10_000u64,
            SkillEffectType::FreezingNova {
                damage: 20,
                radius: 200_000,
                nova_duration_ms: 500,
                slow_mult_pct: 50,
                slow_duration_ms: 3000,
            },
            1u8,
        )
    } else {
        (
            SkillId(6),
            18_000u64,
            SkillEffectType::SummonSentry {
                sentry_damage_per_tick: 15,
                sentry_radius: 100_000,
                sentry_tick_interval_ms: 750,
                sentry_duration_ms: 8000,
            },
            1u8,
        )
    }
}

/// The fixed catalog: a bolt, a burst, a piercing lance, a self-buff, a
/// chilling nova and a summoned sentry — entry for entry as
/// `spec_skill_entry` states.
pub fn populate_skill_library() -> (r: SkillLibrary)
    ensures
        r.skills@.len() == 6,
        library_wf(r.skills@),
        forall|i: int|
            0 <= i < 6 ==> ((#[trigger] r.skills@[i]).id, r.skills@[i].base_cooldown_ms,
            r.skills@[i].effect, r.skills@[i].base_glyph_slots) == spec_skill_entry(i),
{
    let mut skills: Vec<SkillDefinition> = Vec::new();
    skills.push(SkillDefinition {
        id: SkillId(1),
        name: "Eldritch Bolt".to_string(),
        description: "Fires a bolt of arcane energy.".to_string(),
        base_cooldown_ms: 1500,
        effect: SkillEffectType::Projectile {
            base_damage: 25,
            speed: 650_000,
            radius: 14_000,
            lifetime_ms: 2500,
            piercing: 0,
        },
        base_glyph_slots: 2,
    });
    skills.push(SkillDefinition {
        id: SkillId(2),
        name: "Mind Shatter".to_string(),
        description: "Unleashes a short-range psychic burst in a wide arc.".to_string(),
        base_cooldown_ms: 4000,
        effect: SkillEffectType::AreaOfEffect {
            base_damage_per_tick: 35,
            base_radius: 175_000,
            tick_interval_ms: 100,
            duration_ms: 200,
        },
        base_glyph_slots: 1,
    });
    skills.push(SkillDefinition {
        id: SkillId(3),
        name: "Void Lance".to_string(),
        description: "Projects a slow but potent lance of void energy that pierces foes."
            .to_string(),
        base_cooldown_ms: 2500,
        effect: SkillEffectType::Projectile {
            base_damage: 40,
            speed: 400_000,
            radius: 20_000,
            lifetime_ms: 3000,
            piercing: 2,
        },
        base_glyph_slots: 2,
    });
    skills.push(SkillDefinition {
        id: SkillId(4),
        name: "Fleeting Agility".to_string(),
        description: "Briefly enhance your speed and reflexes.".to_string(),
        base_cooldown_ms: 20_000,
        effect: SkillEffectType::SurvivorBuff {
            speed_bonus_pct: 30,
            fire_rate_bonus_pct: 25,
            duration_ms: 5000,
        },
        base_glyph_slots: 0,
    });
    skills.push(SkillDefinition {
        id: SkillId(5),
        name: "Glacial Nova".to_string(),
        description: "Emits a chilling nova, damaging and slowing nearby foes.".to_string(),
        base_cooldown_ms: 10_000,
        effect: SkillEffectType::FreezingNova {
            damage: 20,
            radius: 200_000,
            nova_duration_ms: 500,
            slow_mult_pct: 50,
            slow_duration_ms: 3000,
        },
        base_glyph_slots: 1,
    });
    skills.push(SkillDefinition {
        id: SkillId(6),
        name: "Psychic Sentry".to_string(),
        description: "Summons a stationary sentry that pulses with psychic energy.".to_string(),
        base_cooldown_ms: 18_000,
        effect: SkillEffectType::SummonSentry {
            sentry_damage_per_tick: 15,
            sentry_radius: 100_000,
            sentry_tick_interval_ms: 750,
            sentry_duration_ms: 8000,
        },
        base_glyph_slots: 1,
    });
    proof {
        assert(skills@[0].wf());
        assert(skills@[1].wf());
        assert(skills@[2].wf());
        assert(skills@[3].wf());
        assert(skills@[4].wf());
        assert(skills@[5].wf());
    }
    SkillLibrary { skills }
}

/// Chain-bounce search radius, in milli-units.
pub const CHAIN_RADIUS: i64 = 250_000;

/// A live skill projectile.  It remembers every target it has hit for its
/// whole lifetime; `piercing_left` targets may still be passed through, and
/// `bounces_left` chain retargets remain after the pierce budget runs out.
/// The spawn-time parameters (`speed`, `base_piercing`, `lifetime_ms`) ride
/// along so a chained successor can be built from them.
#[derive(Clone, PartialEq, Eq, Debug)]
pub struct SkillProjectile {
    pub skill_id: SkillId,
    pub pos: Vec2I,
    pub vel: Vec2I,
    pub damage: i32,
    pub radius: i64,
    pub piercing_left: u32,
    pub bounces_left: u32,
    pub already_hit: Vec<u64>,
    pub lifetime: Timer,
    pub speed: i64,
    pub base_piercing: u32,
    pub lifetime_ms: u64,
}

/// The mathematical image of a skill projectile.
pub struct SpecProjectile {
    pub skill_id: SkillId,
    pub pos: Vec2I,
    pub vel: Vec2I,
    pub damage: i32,
    pub radius: i64,
    pub piercing_left: u32,
    pub bounces_left: u32,
    pub already_hit: Seq<u64>,
    pub lifetime: Timer,
    pub speed: i64,
    pub base_piercing: u32,
    pub lifetime_ms: u64,
}

impl View for SkillProjectile {
    type V = SpecProjectile;

    open spec fn view(&self) -> SpecProjectile {
        SpecProjectile {
            skill_id: self.skill_id,
            pos: self.pos,
            vel: self.vel,
            damage: self.damage,
            radius: self.radius,
            piercing_left: self.piercing_left,
            bounces_left: self.bounces_left,
            already_hit: self.already_hit@,
            lifetime: self.lifetime,
            speed: self.speed,
            base_piercing: self.base_piercing,
            lifetime_ms: self.lifetime_ms,
        }
    }
}

impl SkillProjectile {
    pub open spec fn wf(self) -> bool {
        &&& self.pos.in_world()
        &&& -VEL_LIMIT <= self.vel.x <= VEL_LIMIT
        &&& -VEL_LIMIT <= self.vel.y <= VEL_LIMIT
        &&& 0 <= self.damage <= 1_000_000
        &&& 0 <= self.radius <= RADIUS_LIMIT
        &&& self.piercing_left <= 1_000_000
        &&& self.bounces_left <= 1_000_000
        &&& self.base_piercing <= 1_000_000
        &&& 0 <= self.speed <= VEL_LIMIT
        &&& 1 <= self.lifetime_ms <= 1_000_000_000_000
        &&& self.lifetime.wf()
        &&& self.lifetime.mode == TimerMode::Once
        &&& self.already_hit@.len() <= 10_000_000
    }
}

pub open spec fn all_sprojs_wf(s: Seq<SkillProjectile>) -> bool {
    forall|i: int| 0 <= i < s.len() ==> s[i].wf()
}

fn contains_id(v: &Vec<u64>, id: u64) -> (r: bool)
    ensures
        r == v@.contains(id),
{
    let n: usize = v.len();
    let mut i: usize = 0;
    while i < n
        invariant
            0 <= i <= n,
            n == v@.len(),
            forall|m: int| 0 <= m < i ==> v@[m] != id,
        decreases n - i,
    {
        if v[i] == id {
            proof {
                assert(v@[i as int] == id);
            }
            return true;
        }
        i += 1;
    }
    proof {
        assert(!v@.contains(id)) by {
            assert(forall|m: int| 0 <= m < v@.len() ==> v@[m] != id);
        }
    }
    false
}

/// Whether the enemy at `j` is eligible for this projectile: its circle
/// overlaps and it was never hit by this projectile before.
pub open spec fn skill_eligible(s: Seq<Enemy>, pos: Vec2I, r: int, excl: Seq<u64>, j: int) -> bool {
    &&& 0 <= j < s.len()
    &&& volley_collides(pos, r, s[j], true)
    &&& !excl.contains(s[j].id)
}

/// How many of the first `j` enemies are eligible.
pub open spec fn skill_hits_before(
    s: Seq<Enemy>,
    pos: Vec2I,
    r: int,
    excl: Seq<u64>,
    j: int,
) -> int
    decreases j,
{
    if j <= 0 {
        0
    } else {
        skill_hits_before(s, pos, r, excl, j - 1) + if skill_eligible(s, pos, r, excl, j - 1) {
            1int
        } else {
            0int
        }
    }
}

/// Whether the projectile strikes the enemy at `j`: eligible, and the
/// pierce budget is not yet exhausted when the pass arrives.
pub open spec fn skill_hit(
    s: Seq<Enemy>,
    pos: Vec2I,
    r: int,
    excl: Seq<u64>,
    pierce: int,
    j: int,
) -> bool {
    &&& skill_eligible(s, pos, r, excl, j)
    &&& skill_hits_before(s, pos, r, excl, j) <= pierce
}

/// One skill projectile's pass after considering the first `j` enemies: the
/// resolution outputs, and the projectile's hit list grown by each struck
/// target's id, in order.
pub open spec fn skill_volley(
    s: Seq<Enemy>,
    pos: Vec2I,
    r: int,
    excl: Seq<u64>,
    damage: int,
    pierce: int,
    now_ms: u64,
    init: VolleyOut,
    j: int,
) -> (VolleyOut, Seq<u64>)
    decreases j,
{
    if j <= 0 {
        (init, excl)
    } else {
        let prev = skill_volley(s, pos, r, excl, damage, pierce, now_ms, init, j - 1);
        if skill_hit(s, pos, r, excl, pierce, j - 1) {
            let e = s[j - 1];
            let died = enemy_dies(e, damage);
            (
                VolleyOut {
                    enemies: prev.0.enemies.update(j - 1, enemy_damaged(e, damage)),
                    score: if died {
                        add_score_spec(prev.0.score, SCORE_PER_KILL as int)
                    } else {
                        prev.0.score
                    },
                    pickups: if died {
                        prev.0.pickups.push(Pickup { pos: e.pos, xp_value: EXP_ORB_VALUE })
                    } else {
                        prev.0.pickups
                    },
                    sounds: if died {
                        prev.0.sounds.push(SoundEffect::EnemyHit).push(SoundEffect::EnemyDeath)
                    } else {
                        prev.0.sounds.push(SoundEffect::EnemyHit)
                    },
                    texts: prev.0.texts.push(DamageText {
                        pos: e.pos,
                        amount: damage as i32,
                        timestamp_ms: now_ms,
                    }),
                    despawns: if died {
                        prev.0.despawns.push(e.id)
                    } else {
                        prev.0.despawns
                    },
                },
                prev.1.push(e.id),
            )
        } else {
            prev
        }
    }
}

/// Eligibility counts never decrease along the pass.
pub proof fn lemma_skill_hits_mono(
    s: Seq<Enemy>,
    pos: Vec2I,
    r: int,
    excl: Seq<u64>,
    a: int,
    b: int,
)
    requires
        a <= b,
    ensures
        skill_hits_before(s, pos, r, excl, a) <= skill_hits_before(s, pos, r, excl, b),
    decreases b - a,
{
    if a < b {
        lemma_skill_hits_mono(s, pos, r, excl, a, b - 1);
    }
}

/// Once nothing further is struck, the pass state stays put.
pub proof fn lemma_skill_volley_stable(
    s: Seq<Enemy>,
    pos: Vec2I,
    r: int,
    excl: Seq<u64>,
    damage: int,
    pierce: int,
    now_ms: u64,
    init: VolleyOut,
    cut: int,
    j: int,
)
    requires
        0 <= cut <= j,
        forall|k: int| cut <= k < j ==> !skill_hit(s, pos, r, excl, pierce, k),
    ensures
        skill_volley(s, pos, r, excl, damage, pierce, now_ms, init, j) == skill_volley(
            s,
            pos,
            r,
            excl,
            damage,
            pierce,
            now_ms,
            init,
            cut,
        ),
    decreases j - cut,
{
    if cut < j {
        lemma_skill_volley_stable(s, pos, r, excl, damage, pierce, now_ms, init, cut, j - 1);
    }
}

/// Along the pass, the hit list only grows: the initial entries stay, and
/// every added entry is the id of a target struck earlier in the pass.
pub proof fn lemma_skill_volley_hits(
    s: Seq<Enemy>,
    pos: Vec2I,
    r: int,
    excl: Seq<u64>,
    damage: int,
    pierce: int,
    now_ms: u64,
    init: VolleyOut,
    j: int,
)
    requires
        0 <= j <= s.len(),
    ensures
        ({
            let r1 = skill_volley(s, pos, r, excl, damage, pierce, now_ms, init, j).1;
            &&& excl.len() <= r1.len()
            &&& (forall|m: int| 0 <= m < excl.len() ==> r1[m] == excl[m])
            &&& (forall|m: int|
                excl.len() <= m < r1.len() ==> exists|k: int|
                    0 <= k < j && #[trigger] r1[m] == s[k].id)
        }),
    decreases j,
{
    if j > 0 {
        lemma_skill_volley_hits(s, pos, r, excl, damage, pierce, now_ms, init, j - 1);
    }
}

/// One skill projectile's pass over the registry.  Eligible targets are
/// struck in registry order while the pierce budget lasts; each struck
/// target's id joins the projectile's hit list, so this projectile can
/// never strike the same target twice, this tick or later.  Returns the
/// strike count and, when the budget was exhausted, the index of the target
/// that consumed it.
pub fn skill_strike(
    reg: &mut EnemyRegistry,
    pos: Vec2I,
    radius: i64,
    excl: &mut Vec<u64>,
    damage: i32,
    pierce: u32,
    now_ms: u64,
    score: &mut u32,
    pickups: &mut Vec<Pickup>,
    sounds: &mut Vec<SoundEffect>,
    texts: &mut Vec<DamageText>,
    despawns: &mut Vec<u64>,
) -> (r: (u32, Option<usize>))
    requires
        old(reg).wf(),
        pos.in_world(),
        0 <= radius <= RADIUS_LIMIT,
        0 <= damage <= 1_000_000,
        pierce <= 2_000_000,
        old(reg).list@.len() <= 1_000_000,
        all_pickups_in_world(old(pickups)@),
    ensures
        final(reg).wf(),
        final(reg).list@.len() == old(reg).list@.len(),
        forall|k: int|
            0 <= k < final(reg).list@.len() ==> (#[trigger] final(reg).list@[k]).id == old(reg).list@[k].id,
        all_pickups_in_world(final(pickups)@),
        ({
            let out = skill_volley(
                old(reg).list@,
                pos,
                radius as int,
                old(excl)@,
                damage as int,
                pierce as int,
                now_ms,
                VolleyOut {
                    enemies: old(reg).list@,
                    score: *old(score) as int,
                    pickups: old(pickups)@,
                    sounds: old(sounds)@,
                    texts: old(texts)@,
                    despawns: old(despawns)@,
                },
                old(reg).list@.len() as int,
            );
            &&& final(reg).list@ == out.0.enemies
            &&& *final(score) == out.0.score
            &&& final(pickups)@ == out.0.pickups
            &&& final(sounds)@ == out.0.sounds
            &&& final(texts)@ == out.0.texts
            &&& final(despawns)@ == out.0.despawns
            &&& final(excl)@ == out.1
            &&& final(excl)@.len() == old(excl)@.len() + r.0
        }),
        ({
            let total = skill_hits_before(
                old(reg).list@,
                pos,
                radius as int,
                old(excl)@,
                old(reg).list@.len() as int,
            );
            &&& r.0 == if total > pierce {
                pierce + 1
            } else {
                total
            }
            &&& (total > pierce <==> r.1 is Some)
            &&& (r.1 matches Option::Some(ci) ==> skill_hit(
                old(reg).list@,
                pos,
                radius as int,
                old(excl)@,
                pierce as int,
                ci as int,
            ) && skill_hits_before(old(reg).list@, pos, radius as int, old(excl)@, ci as int)
                == pierce)
        }),
{
    let ghost s = reg.list@;
    let ghost excl0 = excl@;
    let ghost init = VolleyOut {
        enemies: old(reg).list@,
        score: *old(score) as int,
        pickups: old(pickups)@,
        sounds: old(sounds)@,
        texts: old(texts)@,
        despawns: old(despawns)@,
    };
    let n: usize = reg.list.len();
    let mut j: usize = 0;
    let mut hits: u32 = 0;
    while j < n
        invariant
            reg.wf(),
            pos.in_world(),
            0 <= radius <= RADIUS_LIMIT,
            0 <= damage <= 1_000_000,
            pierce <= 2_000_000,
            0 <= j <= n,
            n == s.len(),
            n <= 1_000_000,
            s == old(reg).list@,
            crate::enemy::unique_ids(s),
            excl0 == old(excl)@,
            init == (VolleyOut {
                enemies: old(reg).list@,
                score: *old(score) as int,
                pickups: old(pickups)@,
                sounds: old(sounds)@,
                texts: old(texts)@,
                despawns: old(despawns)@,
            }),
            reg.list@.len() == s.len(),
            all_pickups_in_world(pickups@),
            forall|k: int| j <= k < s.len() ==> reg.list@[k] == s[k],
            forall|k: int| 0 <= k < s.len() ==> (#[trigger] reg.list@[k]).id == s[k].id,
            hits == skill_hits_before(s, pos, radius as int, excl0, j as int),
            hits <= pierce,
            excl@.len() == excl0.len() + hits,
            ({
                let out = skill_volley(
                    s,
                    pos,
                    radius as int,
                    excl0,
                    damage as int,
                    pierce as int,
                    now_ms,
                    init,
                    j as int,
                );
                &&& reg.list@ == out.0.enemies
                &&& *score == out.0.score
                &&& pickups@ == out.0.pickups
                &&& sounds@ == out.0.sounds
                &&& texts@ == out.0.texts
                &&& despawns@ == out.0.despawns
                &&& excl@ == out.1
            }),
        decreases n - j,
    {
        let e = reg.list[j];
        if circles_collide(pos, radius, e.pos, e.radius) {
            proof {
                lemma_skill_volley_hits(
                    s,
                    pos,
                    radius as int,
                    excl0,
                    damage as int,
                    pierce as int,
                    now_ms,
                    init,
                    j as int,
                );
            }
            if !contains_id(excl, e.id) {
                proof {
                    assert(!excl0.contains(e.id)) by {
                        if excl0.contains(e.id) {
                            let m = choose|m: int|
                                0 <= m < excl0.len() && excl0[m] == e.id;
                            assert(excl@[m] == excl0[m]);
                            assert(excl@.contains(e.id));
                        }
                    }
                    assert(skill_hit(s, pos, radius as int, excl0, pierce as int, j as int));
                }
                damage_enemy_at(reg, j, damage, now_ms, score, pickups, sounds, texts, despawns);
                excl.push(e.id);
                hits = hits + 1;
                if hits > pierce {
                    proof {
                        assert(skill_hits_before(s, pos, radius as int, excl0, j as int + 1)
                            == pierce + 1);
                        assert(forall|k: int|
                            j as int + 1 <= k < s.len() ==> !skill_hit(
                                s,
                                pos,
                                radius as int,
                                excl0,
                                pierce as int,
                                k,
                            )) by {
                            assert forall|k: int|
                                j as int + 1 <= k < s.len() implies !skill_hit(
                                s,
                                pos,
                                radius as int,
                                excl0,
                                pierce as int,
                                k,
                            ) by {
                                lemma_skill_hits_mono(
                                    s,
                                    pos,
                                    radius as int,
                                    excl0,
                                    j as int + 1,
                                    k,
                                );
                            }
                        }
                        lemma_skill_volley_stable(
                            s,
                            pos,
                            radius as int,
                            excl0,
                            damage as int,
                            pierce as int,
                            now_ms,
                            init,
                            j as int + 1,
                            s.len() as int,
                        );
                        lemma_skill_hits_mono(
                            s,
                            pos,
                            radius as int,
                            excl0,
                            j as int + 1,
                            s.len() as int,
                        );
                    }
                    return (hits, Option::Some(j));
                }
            } else {
                proof {
                    assert(excl0.contains(e.id)) by {
                        let m = choose|m: int| 0 <= m < excl@.len() && excl@[m] == e.id;
                        let r1 = skill_volley(
                            s,
                            pos,
                            radius as int,
                            excl0,
                            damage as int,
                            pierce as int,
                            now_ms,
                            init,
                            j as int,
                        ).1;
                        if m < excl0.len() {
                            assert(excl0[m] == r1[m]);
                            assert(excl0.contains(e.id));
                        } else {
                            let k = choose|k: int| 0 <= k < j && #[trigger] r1[m] == s[k].id;
                            assert(s[k].id == s[j as int].id);
                            assert(false);
                        }
                    }
                    assert(!skill_eligible(s, pos, radius as int, excl0, j as int));
                }
            }
        }
        j += 1;
    }
    (hits, Option::None)
}

/// A chain candidate: a target inside the chain radius of the hit point
/// that this projectile has not touched.
pub open spec fn is_chain_candidate(s: Seq<Enemy>, from: Vec2I, excl: Seq<u64>, j: int) -> bool {
    &&& 0 <= j < s.len()
    &&& !excl.contains(s[j].id)
    &&& dist_sq(s[j].pos, from) < CHAIN_RADIUS * CHAIN_RADIUS
}

/// The candidate a chain retarget picks: nearest to the hit point, and the
/// first in registry order among equally near ones.
pub open spec fn is_first_nearest(s: Seq<Enemy>, from: Vec2I, excl: Seq<u64>, j: int) -> bool {
    &&& is_chain_candidate(s, from, excl, j)
    &&& (forall|k: int|
        is_chain_candidate(s, from, excl, k) ==> dist_sq(s[j].pos, from) <= dist_sq(
            s[k].pos,
            from,
        ))
    &&& (forall|k: int|
        0 <= k < j && is_chain_candidate(s, from, excl, k) ==> dist_sq(s[k].pos, from) > dist_sq(
            s[j].pos,
            from,
        ))
}

/// The chain target, when any candidate exists.
pub open spec fn chain_target(s: Seq<Enemy>, from: Vec2I, excl: Seq<u64>) -> Option<int> {
    if exists|j: int| is_first_nearest(s, from, excl, j) {
        Option::Some(choose|j: int| is_first_nearest(s, from, excl, j))
    } else {
        Option::None
    }
}

/// At most one index is the first-nearest candidate.
pub proof fn lemma_chain_target_unique(s: Seq<Enemy>, from: Vec2I, excl: Seq<u64>, j: int)
    requires
        is_first_nearest(s, from, excl, j),
    ensures
        chain_target(s, from, excl) == Option::Some(j),
{
    assert(exists|m: int| is_first_nearest(s, from, excl, m));
    let j2 = choose|m: int| is_first_nearest(s, from, excl, m);
    if j2 < j {
        assert(dist_sq(s[j2].pos, from) > dist_sq(s[j].pos, from));
        assert(dist_sq(s[j2].pos, from) <= dist_sq(s[j].pos, from));
    } else if j < j2 {
        assert(dist_sq(s[j].pos, from) > dist_sq(s[j2].pos, from));
        assert(dist_sq(s[j].pos, from) <= dist_sq(s[j2].pos, from));
    }
}

/// Find the chain target in the registry: the nearest untouched enemy
/// within the chain radius of `from`, the earliest one on ties; nothing
/// when no candidate exists.
pub fn nearest_chain_target(reg: &EnemyRegistry, from: Vec2I, excl: &Vec<u64>) -> (r: Option<
    usize,
>)
    requires
        reg.wf(),
        from.in_world(),
    ensures
        r matches Option::Some(j) ==> j < reg.list@.len() && is_first_nearest(
            reg.list@,
            from,
            excl@,
            j as int,
        ) && chain_target(reg.list@, from, excl@) == Option::Some(j as int),
        r is None ==> chain_target(reg.list@, from, excl@) is None && (forall|k: int|
            !is_chain_candidate(reg.list@, from, excl@, k)),
{
    let n: usize = reg.list.len();
    let mut best: usize = 0;
    let mut best_d: i64 = 0;
    let mut found = false;
    let mut i: usize = 0;
    while i < n
        invariant
            reg.wf(),
            from.in_world(),
            0 <= i <= n,
            n == reg.list@.len(),
            !found ==> forall|k: int| 0 <= k < i ==> !is_chain_candidate(reg.list@, from, excl@, k),
            found ==> {
                &&& best < i
                &&& is_chain_candidate(reg.list@, from, excl@, best as int)
                &&& best_d == dist_sq(reg.list@[best as int].pos, from)
                &&& (forall|k: int|
                    0 <= k < i && is_chain_candidate(reg.list@, from, excl@, k) ==> best_d
                        <= dist_sq(reg.list@[k].pos, from))
                &&& (forall|k: int|
                    0 <= k < best && is_chain_candidate(reg.list@, from, excl@, k) ==> dist_sq(
                        reg.list@[k].pos,
                        from,
                    ) > best_d)
            },
        decreases n - i,
    {
        let e = reg.list[i];
        let d: i64 = distance_squared(e.pos, from);
        if d < 62_500_000_000 && !contains_id(excl, e.id) {
            proof {
                assert(is_chain_candidate(reg.list@, from, excl@, i as int));
            }
            if !found || d < best_d {
                best = i;
                best_d = d;
                found = true;
            }
        } else {
            proof {
                assert(!is_chain_candidate(reg.list@, from, excl@, i as int));
            }
        }
        i += 1;
    }
    if found {
        proof {
            assert(is_first_nearest(reg.list@, from, excl@, best as int));
            lemma_chain_target_unique(reg.list@, from, excl@, best as int);
        }
        Option::Some(best)
    } else {
        proof {
            assert(forall|k: int| !is_chain_candidate(reg.list@, from, excl@, k));
        }
        Option::None
    }
}

/// The index of the strike that exhausts the pierce budget.
pub open spec fn consuming_index(
    s: Seq<Enemy>,
    pos: Vec2I,
    r: int,
    excl: Seq<u64>,
    pierce: int,
) -> int {
    choose|j: int|
        skill_hit(s, pos, r, excl, pierce, j) && skill_hits_before(s, pos, r, excl, j) == pierce
}

/// Only one strike can exhaust the budget.
pub proof fn lemma_consuming_index_unique(
    s: Seq<Enemy>,
    pos: Vec2I,
    r: int,
    excl: Seq<u64>,
    pierce: int,
    j: int,
)
    requires
        skill_hit(s, pos, r, excl, pierce, j),
        skill_hits_before(s, pos, r, excl, j) == pierce,
    ensures
        consuming_index(s, pos, r, excl, pierce) == j,
{
    let j2 = consuming_index(s, pos, r, excl, pierce);
    assert(skill_hit(s, pos, r, excl, pierce, j2) && skill_hits_before(s, pos, r, excl, j2)
        == pierce);
    if j < j2 {
        lemma_skill_hits_mono(s, pos, r, excl, j + 1, j2);
        assert(skill_hits_before(s, pos, r, excl, j + 1) == pierce + 1);
    } else if j2 < j {
        lemma_skill_hits_mono(s, pos, r, excl, j2 + 1, j);
        assert(skill_hits_before(s, pos, r, excl, j2 + 1) == pierce + 1);
    }
}

/// A fresh lifetime timer for a (chained) skill projectile.
pub open spec fn spec_sproj_lifetime(ms: u64) -> Timer {
    Timer {
        duration_ms: ms,
        elapsed_ms: 0,
        mode: TimerMode::Once,
        paused: false,
        finished: false,
        just_finished: false,
    }
}

/// The successor a chain retarget spawns: placed at the hit point, aimed at
/// the chain target, carrying the same damage, the skill's base pierce, the
/// remaining bounce count, a fresh lifetime, and a hit list seeded with the
/// new target.
pub open spec fn chain_successor(
    s: Seq<Enemy>,
    pr: SpecProjectile,
    hit_pos: Vec2I,
    excl2: Seq<u64>,
) -> Option<SpecProjectile> {
    match chain_target(s, hit_pos, excl2) {
        Option::Some(t) => Option::Some(SpecProjectile {
            skill_id: pr.skill_id,
            pos: hit_pos,
            vel: norm_scaled_spec(
                Vec2I { x: (s[t].pos.x - hit_pos.x) as i64, y: (s[t].pos.y - hit_pos.y) as i64 },
                pr.speed as int,
            ),
            damage: pr.damage,
            radius: pr.radius,
            piercing_left: pr.base_piercing,
            bounces_left: (pr.bounces_left - 1) as u32,
            already_hit: seq![s[t].id],
            lifetime: spec_sproj_lifetime(pr.lifetime_ms),
            speed: pr.speed,
            base_piercing: pr.base_piercing,
            lifetime_ms: pr.lifetime_ms,
        }),
        Option::None => Option::None,
    }
}

/// One skill projectile's whole step: its resolution pass, what is left of
/// the projectile, and the successor a chain retarget spawned.  A projectile
/// whose recorded hits exceed the runaway bound (pierce + bounces + a small
/// constant) is force-despawned without striking.  Otherwise it strikes
/// until its pierce budget runs out; at the consuming strike, one remaining
/// bounce buys exactly one successor aimed at the nearest untouched target
/// within the chain radius (none when no candidate exists), and the original
/// despawns either way.
pub open spec fn skill_step(pr: SpecProjectile, st: VolleyOut, now_ms: u64) -> (
    VolleyOut,
    Option<SpecProjectile>,
    Option<SpecProjectile>,
) {
    if pr.already_hit.len() > pr.piercing_left + pr.bounces_left + 5 {
        (st, Option::None, Option::None)
    } else {
        let s = st.enemies;
        let out = skill_volley(
            s,
            pr.pos,
            pr.radius as int,
            pr.already_hit,
            pr.damage as int,
            pr.piercing_left as int,
            now_ms,
            st,
            s.len() as int,
        );
        let total = skill_hits_before(
            s,
            pr.pos,
            pr.radius as int,
            pr.already_hit,
            s.len() as int,
        );
        if total > pr.piercing_left {
            let ci = consuming_index(
                s,
                pr.pos,
                pr.radius as int,
                pr.already_hit,
                pr.piercing_left as int,
            );
            let hit_pos = out.0.enemies[ci].pos;
            if pr.bounces_left > 0 {
                (out.0, Option::None, chain_successor(out.0.enemies, pr, hit_pos, out.1))
            } else {
                (out.0, Option::None, Option::None)
            }
        } else {
            (
                out.0,
                Option::Some(SpecProjectile {
                    piercing_left: (pr.piercing_left - total) as u32,
                    already_hit: out.1,
                    ..pr
                }),
                Option::None,
            )
        }
    }
}

/// The views of a row of skill projectiles.
pub open spec fn sproj_views(s: Seq<SkillProjectile>) -> Seq<SpecProjectile> {
    s.map_values(|p: SkillProjectile| p@)
}

/// Every skill projectile's step, in order, threading the registry and the
/// queues from each into the next; survivors keep their order, successors
/// gather after them.
pub open spec fn skills_resolve(ps: Seq<SpecProjectile>, st: VolleyOut, now_ms: u64) -> (
    VolleyOut,
    Seq<SpecProjectile>,
    Seq<SpecProjectile>,
)
    decreases ps.len(),
{
    if ps.len() == 0 {
        (st, Seq::empty(), Seq::empty())
    } else {
        let prev = skills_resolve(ps.drop_last(), st, now_ms);
        let step = skill_step(ps.last(), prev.0, now_ms);
        (
            step.0,
            match step.1 {
                Option::Some(k) => prev.1.push(k),
                Option::None => prev.1,
            },
            match step.2 {
                Option::Some(c) => prev.2.push(c),
                Option::None => prev.2,
            },
        )
    }
}

/// Resolve every skill projectile against the enemies, in order: piercing,
/// the runaway-chain guard, and chain-bounce retargeting, as `skill_step`
/// states.  Survivors keep their order; chained successors join at the end
/// of the row and fly from the next tick on.
pub fn skill_projectile_collision_system(
    projs: &mut Vec<SkillProjectile>,
    reg: &mut EnemyRegistry,
    now_ms: u64,
    score: &mut u32,
    pickups: &mut Vec<Pickup>,
    sounds: &mut Vec<SoundEffect>,
    texts: &mut Vec<DamageText>,
    despawns: &mut Vec<u64>,
)
    requires
        all_sprojs_wf(old(projs)@),
        old(reg).wf(),
        old(reg).list@.len() <= 1_000_000,
        all_pickups_in_world(old(pickups)@),
    ensures
        final(reg).wf(),
        final(reg).list@.len() == old(reg).list@.len(),
        forall|k: int|
            0 <= k < final(reg).list@.len() ==> (#[trigger] final(reg).list@[k]).id == old(reg).list@[k].id,
        all_sprojs_wf(final(projs)@),
        all_pickups_in_world(final(pickups)@),
        ({
            let r = skills_resolve(
                sproj_views(old(projs)@),
                VolleyOut {
                    enemies: old(reg).list@,
                    score: *old(score) as int,
                    pickups: old(pickups)@,
                    sounds: old(sounds)@,
                    texts: old(texts)@,
                    despawns: old(despawns)@,
                },
                now_ms,
            );
            &&& sproj_views(final(projs)@) == r.1 + r.2
            &&& final(reg).list@ == r.0.enemies
            &&& *final(score) == r.0.score
            &&& final(pickups)@ == r.0.pickups
            &&& final(sounds)@ == r.0.sounds
            &&& final(texts)@ == r.0.texts
            &&& final(despawns)@ == r.0.despawns
        }),
{
    let ghost init = VolleyOut {
        enemies: old(reg).list@,
        score: *old(score) as int,
        pickups: old(pickups)@,
        sounds: old(sounds)@,
        texts: old(texts)@,
        despawns: old(despawns)@,
    };
    let n: usize = projs.len();
    let mut kept: Vec<SkillProjectile> = Vec::new();
    let mut successors: Vec<SkillProjectile> = Vec::new();
    let mut i: usize = 0;
    proof {
        assert(sproj_views(old(projs)@).take(0) =~= Seq::<SpecProjectile>::empty());
        assert(old(projs)@.skip(0) =~= old(projs)@);
    }
    while i < n
        invariant
            all_sprojs_wf(old(projs)@),
            0 <= i <= n,
            n == old(projs)@.len(),
            projs@ == old(projs)@.skip(i as int),
            reg.wf(),
            reg.list@.len() == old(reg).list@.len(),
            reg.list@.len() <= 1_000_000,
            forall|k: int|
                0 <= k < reg.list@.len() ==> (#[trigger] reg.list@[k]).id == old(reg).list@[k].id,
            all_pickups_in_world(pickups@),
            all_sprojs_wf(kept@),
            all_sprojs_wf(successors@),
            init == (VolleyOut {
                enemies: old(reg).list@,
                score: *old(score) as int,
                pickups: old(pickups)@,
                sounds: old(sounds)@,
                texts: old(texts)@,
                despawns: old(despawns)@,
            }),
            ({
                let r = skills_resolve(sproj_views(old(projs)@).take(i as int), init, now_ms);
                &&& sproj_views(kept@) == r.1
                &&& sproj_views(successors@) == r.2
                &&& reg.list@ == r.0.enemies
                &&& *score == r.0.score
                &&& pickups@ == r.0.pickups
                &&& sounds@ == r.0.sounds
                &&& texts@ == r.0.texts
                &&& despawns@ == r.0.despawns
            }),
        decreases n - i,
    {
        proof {
            assert(sproj_views(old(projs)@).take(i as int + 1).drop_last() =~= sproj_views(
                old(projs)@,
            ).take(i as int));
            assert(sproj_views(old(projs)@).take(i as int + 1).last() == old(projs)@[i as int]@);
            assert(old(projs)@.skip(i as int)[0] == old(projs)@[i as int]);
            assert(old(projs)@.skip(i as int).remove(0) =~= old(projs)@.skip(i as int + 1));
        }
        let mut pr = projs.remove(0);
        let ghost prv = pr@;
        let ghost st0 = skills_resolve(sproj_views(old(projs)@).take(i as int), init, now_ms).0;
        let bound: u64 = (pr.piercing_left as u64) + (pr.bounces_left as u64) + 5;
        if (pr.already_hit.len() as u64) > bound {
            // runaway-chain guard: force despawn
        } else {
            let pos = pr.pos;
            let radius = pr.radius;
            let damage = pr.damage;
            let pierce = pr.piercing_left;
            let strike = skill_strike(
                reg,
                pos,
                radius,
                &mut pr.already_hit,
                damage,
                pierce,
                now_ms,
                score,
                pickups,
                sounds,
                texts,
                despawns,
            );
            let hits = strike.0;
            match strike.1 {
                Option::Some(ci) => {
                    proof {
                        lemma_consuming_index_unique(
                            st0.enemies,
                            prv.pos,
                            prv.radius as int,
                            prv.already_hit,
                            prv.piercing_left as int,
                            ci as int,
                        );
                    }
                    if pr.bounces_left > 0 {
                        let hit_pos = reg.list[ci].pos;
                        match nearest_chain_target(reg, hit_pos, &pr.already_hit) {
                            Option::Some(t) => {
                                let te = reg.list[t];
                                let d = Vec2I {
                                    x: te.pos.x - hit_pos.x,
                                    y: te.pos.y - hit_pos.y,
                                };
                                let vel = norm_scaled(d, pr.speed);
                                let mut seeded: Vec<u64> = Vec::new();
                                seeded.push(te.id);
                                proof {
                                    assert(seeded@ =~= seq![te.id]);
                                }
                                successors.push(SkillProjectile {
                                    skill_id: pr.skill_id,
                                    pos: hit_pos,
                                    vel,
                                    damage: pr.damage,
                                    radius: pr.radius,
                                    piercing_left: pr.base_piercing,
                                    bounces_left: pr.bounces_left - 1,
                                    already_hit: seeded,
                                    lifetime: Timer::new(pr.lifetime_ms, TimerMode::Once),
                                    speed: pr.speed,
                                    base_piercing: pr.base_piercing,
                                    lifetime_ms: pr.lifetime_ms,
                                });
                            },
                            Option::None => {},
                        }
                    }
                },
                Option::None => {
                    pr.piercing_left = pr.piercing_left - hits;
                    kept.push(pr);
                },
            }
        }
        i += 1;
    }
    proof {
        assert(sproj_views(old(projs)@).take(n as int) =~= sproj_views(old(projs)@));
    }
    let mut all: Vec<SkillProjectile> = kept;
    proof {
        assert(sproj_views(all@) + sproj_views(successors@) == skills_resolve(
            sproj_views(old(projs)@),
            init,
            now_ms,
        ).1 + skills_resolve(sproj_views(old(projs)@), init, now_ms).2);
    }
    while successors.len() > 0
        invariant
            all_sprojs_wf(successors@),
            all_sprojs_wf(all@),
            init == (VolleyOut {
                enemies: old(reg).list@,
                score: *old(score) as int,
                pickups: old(pickups)@,
                sounds: old(sounds)@,
                texts: old(texts)@,
                despawns: old(despawns)@,
            }),
            sproj_views(all@) + sproj_views(successors@) == skills_resolve(
                sproj_views(old(projs)@),
                init,
                now_ms,
            ).1 + skills_resolve(sproj_views(old(projs)@), init, now_ms).2,
        decreases successors@.len(),
    {
        let ghost alls = all@;
        let ghost succs = successors@;
        let x = successors.remove(0);
        all.push(x);
        proof {
            assert(sproj_views(all@) =~= sproj_views(alls).push(x@));
            assert(sproj_views(successors@) =~= sproj_views(succs).drop_first());
            assert(sproj_views(alls).push(x@) + sproj_views(succs).drop_first() =~= sproj_views(
                alls,
            ) + sproj_views(succs));
        }
    }
    proof {
        assert(sproj_views(successors@) =~= Seq::<SpecProjectile>::empty());
        assert(sproj_views(all@) + sproj_views(successors@) =~= sproj_views(all@));
    }
    *projs = all;
}

/// How many targets one pass strikes.
pub open spec fn count_skill_hits(
    s: Seq<Enemy>,
    pos: Vec2I,
    r: int,
    excl: Seq<u64>,
    pierce: int,
    j: int,
) -> int
    decreases j,
{
    if j <= 0 {
        0
    } else {
        count_skill_hits(s, pos, r, excl, pierce, j - 1) + if skill_hit(
            s,
            pos,
            r,
            excl,
            pierce,
            j - 1,
        ) {
            1int
        } else {
            0int
        }
    }
}

/// The pierce budget law: a projectile with pierce budget `pierce` strikes
/// exactly `pierce + 1` targets, or every eligible target when fewer are in
/// reach.
pub proof fn lemma_pierce_budget(
    s: Seq<Enemy>,
    pos: Vec2I,
    r: int,
    excl: Seq<u64>,
    pierce: int,
    j: int,
)
    requires
        0 <= pierce,
        0 <= j <= s.len(),
    ensures
        count_skill_hits(s, pos, r, excl, pierce, j) == if skill_hits_before(s, pos, r, excl, j)
            > pierce {
            pierce + 1
        } else {
            skill_hits_before(s, pos, r, excl, j)
        },
    decreases j,
{
    if j > 0 {
        lemma_pierce_budget(s, pos, r, excl, pierce, j - 1);
    }
}

/// The never-twice law: the ids a pass adds to the projectile's hit list
/// were not on it before, and are pairwise distinct — a projectile never
/// strikes the same target twice, in this pass or any later one.
pub proof fn lemma_projectile_hits_distinct(
    s: Seq<Enemy>,
    pos: Vec2I,
    r: int,
    excl: Seq<u64>,
    damage: int,
    pierce: int,
    now_ms: u64,
    init: VolleyOut,
    j: int,
)
    requires
        crate::enemy::unique_ids(s),
        0 <= j <= s.len(),
    ensures
        ({
            let r1 = skill_volley(s, pos, r, excl, damage, pierce, now_ms, init, j).1;
            &&& (forall|m: int| excl.len() <= m < r1.len() ==> !excl.contains(#[trigger] r1[m]))
            &&& (forall|m1: int, m2: int|
                excl.len() <= m1 < m2 < r1.len() ==> r1[m1] != r1[m2])
        }),
    decreases j,
{
    lemma_skill_volley_hits(s, pos, r, excl, damage, pierce, now_ms, init, j);
    if j > 0 {
        lemma_projectile_hits_distinct(s, pos, r, excl, damage, pierce, now_ms, init, j - 1);
        lemma_skill_volley_hits(s, pos, r, excl, damage, pierce, now_ms, init, j - 1);
        let prev = skill_volley(s, pos, r, excl, damage, pierce, now_ms, init, j - 1).1;
        let cur = skill_volley(s, pos, r, excl, damage, pierce, now_ms, init, j).1;
        if skill_hit(s, pos, r, excl, pierce, j - 1) {
            assert(cur == prev.push(s[j - 1].id));
            assert forall|m1: int, m2: int|
                excl.len() <= m1 < m2 < cur.len() implies cur[m1] != cur[m2] by {
                if m2 == cur.len() - 1 {
                    let k = choose|k: int| 0 <= k < j - 1 && #[trigger] prev[m1] == s[k].id;
                    assert(s[k].id != s[j - 1].id);
                } else {
                    assert(prev[m1] != prev[m2]);
                }
            }
        }
    }
}

/// One skill projectile after a movement tick.
pub open spec fn sproj_moved(pr: SkillProjectile, dt_ms: u64) -> SpecProjectile {
    SpecProjectile { pos: crate::geom::advanced(pr.pos, pr.vel, dt_ms), ..pr@ }
}

/// Integrate every skill projectile's position.
pub fn skill_projectile_movement_system(projs: &mut Vec<SkillProjectile>, dt_ms: u64)
    requires
        all_sprojs_wf(old(projs)@),
        dt_ms <= crate::geom::DT_LIMIT,
    ensures
        all_sprojs_wf(final(projs)@),
        final(projs)@.len() == old(projs)@.len(),
        forall|i: int|
            0 <= i < old(projs)@.len() ==> (#[trigger] final(projs)@[i])@ == sproj_moved(
                old(projs)@[i],
                dt_ms,
            ),
{
    let n: usize = projs.len();
    let mut i: usize = 0;
    while i < n
        invariant
            all_sprojs_wf(old(projs)@),
            dt_ms <= crate::geom::DT_LIMIT,
            0 <= i <= n,
            n == old(projs)@.len(),
            projs@.len() == n,
            forall|m: int| i <= m < n ==> projs@[m] == old(projs)@[m],
            all_sprojs_wf(projs@),
            forall|m: int|
                0 <= m < i ==> (#[trigger] projs@[m])@ == sproj_moved(old(projs)@[m], dt_ms),
        decreases n - i,
    {
        let mut pr = projs.remove(i);
        pr.pos = crate::geom::advance(pr.pos, pr.vel, dt_ms);
        projs.insert(i, pr);
        i += 1;
    }
}

/// The skill projectiles surviving a lifetime tick (by view).
pub open spec fn live_sprojs_after(s: Seq<SkillProjectile>, dt_ms: u64) -> Seq<SpecProjectile>
    decreases s.len(),
{
    if s.len() == 0 {
        Seq::empty()
    } else {
        let rest = live_sprojs_after(s.drop_last(), dt_ms);
        let t2 = s.last().lifetime.spec_tick(dt_ms);
        if t2.just_finished {
            rest
        } else {
            rest.push(SpecProjectile { lifetime: t2, ..s.last()@ })
        }
    }
}

/// Tick every skill projectile's lifetime; despawn those that just elapsed.
pub fn skill_projectile_lifetime_system(projs: &mut Vec<SkillProjectile>, dt_ms: u64)
    requires
        all_sprojs_wf(old(projs)@),
        dt_ms <= MAX_TIME_MS,
    ensures
        all_sprojs_wf(final(projs)@),
        sproj_views(final(projs)@) == live_sprojs_after(old(projs)@, dt_ms),
{
    let n: usize = projs.len();
    let mut kept: Vec<SkillProjectile> = Vec::new();
    let mut i: usize = 0;
    proof {
        assert(old(projs)@.take(0) =~= Seq::<SkillProjectile>::empty());
        assert(old(projs)@.skip(0) =~= old(projs)@);
        assert(sproj_views(kept@) =~= live_sprojs_after(old(projs)@.take(0), dt_ms));
    }
    while i < n
        invariant
            all_sprojs_wf(old(projs)@),
            dt_ms <= MAX_TIME_MS,
            0 <= i <= n,
            n == old(projs)@.len(),
            projs@ == old(projs)@.skip(i as int),
            all_sprojs_wf(kept@),
            sproj_views(kept@) == live_sprojs_after(old(projs)@.take(i as int), dt_ms),
        decreases n - i,
    {
        proof {
            assert(old(projs)@.take(i as int + 1).drop_last() =~= old(projs)@.take(i as int));
            assert(old(projs)@.take(i as int + 1).last() == old(projs)@[i as int]);
            assert(old(projs)@.skip(i as int)[0] == old(projs)@[i as int]);
            assert(old(projs)@.skip(i as int).remove(0) =~= old(projs)@.skip(i as int + 1));
        }
        let ghost kepts = kept@;
        let mut pr = projs.remove(0);
        pr.lifetime.tick(dt_ms);
        if !pr.lifetime.just_finished() {
            kept.push(pr);
            proof {
                assert(sproj_views(kept@) =~= sproj_views(kepts).push(pr@));
            }
        }
        i += 1;
    }
    proof {
        assert(old(projs)@.take(n as int) =~= old(projs)@);
    }
    *projs = kept;
}

/// Recharge every equipped skill's cooldown by the frame delta.
pub fn active_skill_cooldown_recharge_system(skills: &mut Vec<ActiveSkillInstance>, dt_ms: u64)
    ensures
        final(skills)@.len() == old(skills)@.len(),
        forall|i: int|
            0 <= i < old(skills)@.len() ==> {
                let o = old(skills)@[i];
                (#[trigger] final(skills)@[i]) == ActiveSkillInstance {
                    current_cooldown_ms: if o.current_cooldown_ms >= dt_ms {
                        (o.current_cooldown_ms - dt_ms) as u64
                    } else {
                        0u64
                    },
                    ..o
                }
            },
{
    let n: usize = skills.len();
    let mut i: usize = 0;
    while i < n
        invariant
            0 <= i <= n,
            n == old(skills)@.len(),
            skills@.len() == n,
            forall|m: int| i <= m < n ==> skills@[m] == old(skills)@[m],
            forall|m: int|
                0 <= m < i ==> {
                    let o = old(skills)@[m];
                    (#[trigger] skills@[m]) == ActiveSkillInstance {
                        current_cooldown_ms: if o.current_cooldown_ms >= dt_ms {
                            (o.current_cooldown_ms - dt_ms) as u64
                        } else {
                            0u64
                        },
                        ..o
                    }
                },
        decreases n - i,
    {
        let mut inst = skills.remove(i);
        inst.tick_cooldown(dt_ms);
        skills.insert(i, inst);
        i += 1;
    }
}

/// A timed damage zone (skill burst or summoned sentry): a tick timer
/// independent of a lifetime timer; on each tick edge it damages everyone
/// currently within its radius (a bounded burst, not a continuous stream).
#[derive(Clone, Copy, PartialEq, Eq, Structural, Debug)]
pub struct ActiveSkillAoEEffect {
    pub skill_id: SkillId,
    pub pos: Vec2I,
    pub actual_damage_per_tick: i32,
    pub actual_radius: i64,
    pub tick_timer: Timer,
    pub lifetime_timer: Timer,
}

impl ActiveSkillAoEEffect {
    pub open spec fn wf(self) -> bool {
        &&& self.pos.in_world()
        &&& 0 <= self.actual_damage_per_tick <= 1_000_000
        &&& 0 <= self.actual_radius <= RADIUS_LIMIT
        &&& self.tick_timer.wf()
        &&& self.tick_timer.mode == TimerMode::Repeating
        &&& self.lifetime_timer.wf()
        &&& self.lifetime_timer.mode == TimerMode::Once
    }
}

pub open spec fn all_aoes_wf(s: Seq<ActiveSkillAoEEffect>) -> bool {
    forall|i: int| 0 <= i < s.len() ==> s[i].wf()
}

/// One area effect's step: the lifetime advances (an elapsed zone
/// despawns); otherwise the tick timer advances and, on its edge, everyone
/// currently within the radius takes the zone's damage once.
pub open spec fn aoe_step(a: ActiveSkillAoEEffect, st: VolleyOut, dt_ms: u64, now_ms: u64) -> (
    VolleyOut,
    Option<ActiveSkillAoEEffect>,
) {
    let lt = a.lifetime_timer.spec_tick(dt_ms);
    if lt.finished {
        (st, Option::None)
    } else {
        let tt = a.tick_timer.spec_tick(dt_ms);
        let a2 = ActiveSkillAoEEffect { lifetime_timer: lt, tick_timer: tt, ..a };
        if tt.just_finished {
            (
                crate::resolve::volley(
                    st.enemies,
                    a.pos,
                    a.actual_radius as int,
                    false,
                    a.actual_damage_per_tick as int,
                    1_000_000,
                    now_ms,
                    st,
                    st.enemies.len() as int,
                ),
                Option::Some(a2),
            )
        } else {
            (st, Option::Some(a2))
        }
    }
}

/// Every area effect's step, in order.
pub open spec fn aoes_resolve(es: Seq<ActiveSkillAoEEffect>, st: VolleyOut, dt_ms: u64, now_ms: u64) -> (
    VolleyOut,
    Seq<ActiveSkillAoEEffect>,
)
    decreases es.len(),
{
    if es.len() == 0 {
        (st, Seq::empty())
    } else {
        let prev = aoes_resolve(es.drop_last(), st, dt_ms, now_ms);
        let step = aoe_step(es.last(), prev.0, dt_ms, now_ms);
        (
            step.0,
            match step.1 {
                Option::Some(a) => prev.1.push(a),
                Option::None => prev.1,
            },
        )
    }
}

/// Advance every area effect and apply its burst on its tick edge, as
/// `aoe_step` states, zone by zone in order.
pub fn active_skill_aoe_system(
    effects: &mut Vec<ActiveSkillAoEEffect>,
    reg: &mut EnemyRegistry,
    dt_ms: u64,
    now_ms: u64,
    score: &mut u32,
    pickups: &mut Vec<Pickup>,
    sounds: &mut Vec<SoundEffect>,
    texts: &mut Vec<DamageText>,
    despawns: &mut Vec<u64>,
)
    requires
        all_aoes_wf(old(effects)@),
        old(reg).wf(),
        old(reg).list@.len() <= 1_000_000,
        dt_ms <= MAX_TIME_MS,
        all_pickups_in_world(old(pickups)@),
    ensures
        final(reg).wf(),
        final(reg).list@.len() == old(reg).list@.len(),
        forall|k: int|
            0 <= k < final(reg).list@.len() ==> (#[trigger] final(reg).list@[k]).id == old(reg).list@[k].id,
        all_aoes_wf(final(effects)@),
        all_pickups_in_world(final(pickups)@),
        ({
            let r = aoes_resolve(
                old(effects)@,
                VolleyOut {
                    enemies: old(reg).list@,
                    score: *old(score) as int,
                    pickups: old(pickups)@,
                    sounds: old(sounds)@,
                    texts: old(texts)@,
                    despawns: old(despawns)@,
                },
                dt_ms,
                now_ms,
            );
            &&& final(effects)@ == r.1
            &&& final(reg).list@ == r.0.enemies
            &&& *final(score) == r.0.score
            &&& final(pickups)@ == r.0.pickups
            &&& final(sounds)@ == r.0.sounds
            &&& final(texts)@ == r.0.texts
            &&& final(despawns)@ == r.0.despawns
        }),
{
    let ghost init = VolleyOut {
        enemies: old(reg).list@,
        score: *old(score) as int,
        pickups: old(pickups)@,
        sounds: old(sounds)@,
        texts: old(texts)@,
        despawns: old(despawns)@,
    };
    let n: usize = effects.len();
    let mut kept: Vec<ActiveSkillAoEEffect> = Vec::new();
    let mut i: usize = 0;
    proof {
        assert(old(effects)@.take(0) =~= Seq::<ActiveSkillAoEEffect>::empty());
    }
    while i < n
        invariant
            all_aoes_wf(old(effects)@),
            dt_ms <= MAX_TIME_MS,
            0 <= i <= n,
            n == old(effects)@.len(),
            effects@ == old(effects)@,
            reg.wf(),
            reg.list@.len() == old(reg).list@.len(),
            reg.list@.len() <= 1_000_000,
            forall|k: int|
                0 <= k < reg.list@.len() ==> (#[trigger] reg.list@[k]).id == old(reg).list@[k].id,
            all_pickups_in_world(pickups@),
            all_aoes_wf(kept@),
            init == (VolleyOut {
                enemies: old(reg).list@,
                score: *old(score) as int,
                pickups: old(pickups)@,
                sounds: old(sounds)@,
                texts: old(texts)@,
                despawns: old(despawns)@,
            }),
            ({
                let r = aoes_resolve(old(effects)@.take(i as int), init, dt_ms, now_ms);
                &&& kept@ == r.1
                &&& reg.list@ == r.0.enemies
                &&& *score == r.0.score
                &&& pickups@ == r.0.pickups
                &&& sounds@ == r.0.sounds
                &&& texts@ == r.0.texts
                &&& despawns@ == r.0.despawns
            }),
        decreases n - i,
    {
        proof {
            assert(old(effects)@.take(i as int + 1).drop_last() =~= old(effects)@.take(i as int));
            assert(old(effects)@.take(i as int + 1).last() == old(effects)@[i as int]);
        }
        let mut a = effects[i];
        a.lifetime_timer.tick(dt_ms);
        if !a.lifetime_timer.finished() {
            a.tick_timer.tick(dt_ms);
            if a.tick_timer.just_finished() {
                crate::resolve::strike_in_radius(
                    reg,
                    a.pos,
                    a.actual_radius,
                    false,
                    a.actual_damage_per_tick,
                    1_000_000,
                    now_ms,
                    score,
                    pickups,
                    sounds,
                    texts,
                    despawns,
                );
            }
            kept.push(a);
        }
        i += 1;
    }
    proof {
        assert(old(effects)@.take(n as int) =~= old(effects)@);
    }
    *effects = kept;
}

/// A single-shot radial burst that damages each target at most once over
/// its whole lifetime and applies the timed movement slow.
#[derive(Clone, Copy, PartialEq, Eq, Structural, Debug)]
pub struct FreezingNovaEffect {
    pub pos: Vec2I,
    pub damage: i32,
    pub radius: i64,
    pub lifetime_timer: Timer,
    pub slow_mult_pct: u32,
    pub slow_duration_ms: u64,
    pub fired: bool,
}

impl FreezingNovaEffect {
    pub open spec fn wf(self) -> bool {
        &&& self.pos.in_world()
        &&& 0 <= self.damage <= 1_000_000
        &&& 0 <= self.radius <= RADIUS_LIMIT
        &&& self.lifetime_timer.wf()
        &&& self.lifetime_timer.mode == TimerMode::Once
        &&& self.slow_mult_pct <= 100
        &&& 1 <= self.slow_duration_ms <= 1_000_000_000_000
    }
}

pub open spec fn all_novas_wf(s: Seq<FreezingNovaEffect>) -> bool {
    forall|i: int| 0 <= i < s.len() ==> s[i].wf()
}

/// The enemy after a nova burst lands on it: damaged, and Slowed — a fresh
/// slow status replaces any existing one (refresh, never stacking).
pub open spec fn enemy_nova_struck(e: Enemy, damage: int, mult_pct: u32, dur_ms: u64) -> Enemy {
    Enemy {
        health: crate::resolve::sub_health_spec(e.health as int, damage) as i32,
        frozen: Option::Some(crate::enemy::Frozen {
            timer: spec_sproj_lifetime(dur_ms),
            speed_mult_pct: mult_pct,
        }),
        ..e
    }
}

/// A nova burst after considering the first `j` enemies: every enemy whose
/// center lies within the radius takes the damage once and is Slowed.
pub open spec fn nova_volley(
    s: Seq<Enemy>,
    pos: Vec2I,
    r: int,
    damage: int,
    mult_pct: u32,
    dur_ms: u64,
    now_ms: u64,
    init: VolleyOut,
    j: int,
) -> VolleyOut
    decreases j,
{
    if j <= 0 {
        init
    } else {
        let prev = nova_volley(s, pos, r, damage, mult_pct, dur_ms, now_ms, init, j - 1);
        if volley_collides(pos, r, s[j - 1], false) {
            let e = s[j - 1];
            let died = enemy_dies(e, damage);
            VolleyOut {
                enemies: prev.enemies.update(j - 1, enemy_nova_struck(e, damage, mult_pct, dur_ms)),
                score: if died {
                    add_score_spec(prev.score, SCORE_PER_KILL as int)
                } else {
                    prev.score
                },
                pickups: if died {
                    prev.pickups.push(Pickup { pos: e.pos, xp_value: EXP_ORB_VALUE })
                } else {
                    prev.pickups
                },
                sounds: if died {
                    prev.sounds.push(SoundEffect::EnemyHit).push(SoundEffect::EnemyDeath)
                } else {
                    prev.sounds.push(SoundEffect::EnemyHit)
                },
                texts: prev.texts.push(DamageText {
                    pos: e.pos,
                    amount: damage as i32,
                    timestamp_ms: now_ms,
                }),
                despawns: if died {
                    prev.despawns.push(e.id)
                } else {
                    prev.despawns
                },
            }
        } else {
            prev
        }
    }
}

/// One nova's burst over the registry, with the slow status applied to each
/// struck target.
fn nova_strike(
    reg: &mut EnemyRegistry,
    pos: Vec2I,
    radius: i64,
    damage: i32,
    mult_pct: u32,
    dur_ms: u64,
    now_ms: u64,
    score: &mut u32,
    pickups: &mut Vec<Pickup>,
    sounds: &mut Vec<SoundEffect>,
    texts: &mut Vec<DamageText>,
    despawns: &mut Vec<u64>,
)
    requires
        old(reg).wf(),
        pos.in_world(),
        0 <= radius <= RADIUS_LIMIT,
        0 <= damage <= 1_000_000,
        mult_pct <= 100,
        1 <= dur_ms <= 1_000_000_000_000,
        all_pickups_in_world(old(pickups)@),
    ensures
        final(reg).wf(),
        final(reg).list@.len() == old(reg).list@.len(),
        forall|k: int|
            0 <= k < final(reg).list@.len() ==> (#[trigger] final(reg).list@[k]).id == old(reg).list@[k].id,
        all_pickups_in_world(final(pickups)@),
        ({
            let out = nova_volley(
                old(reg).list@,
                pos,
                radius as int,
                damage as int,
                mult_pct,
                dur_ms,
                now_ms,
                VolleyOut {
                    enemies: old(reg).list@,
                    score: *old(score) as int,
                    pickups: old(pickups)@,
                    sounds: old(sounds)@,
                    texts: old(texts)@,
                    despawns: old(despawns)@,
                },
                old(reg).list@.len() as int,
            );
            &&& final(reg).list@ == out.enemies
            &&& *final(score) == out.score
            &&& final(pickups)@ == out.pickups
            &&& final(sounds)@ == out.sounds
            &&& final(texts)@ == out.texts
            &&& final(despawns)@ == out.despawns
        }),
{
    let ghost s = reg.list@;
    let ghost init = VolleyOut {
        enemies: old(reg).list@,
        score: *old(score) as int,
        pickups: old(pickups)@,
        sounds: old(sounds)@,
        texts: old(texts)@,
        despawns: old(despawns)@,
    };
    let n: usize = reg.list.len();
    let mut j: usize = 0;
    while j < n
        invariant
            reg.wf(),
            pos.in_world(),
            0 <= radius <= RADIUS_LIMIT,
            0 <= damage <= 1_000_000,
            mult_pct <= 100,
            1 <= dur_ms <= 1_000_000_000_000,
            0 <= j <= n,
            n == s.len(),
            s == old(reg).list@,
            init == (VolleyOut {
                enemies: old(reg).list@,
                score: *old(score) as int,
                pickups: old(pickups)@,
                sounds: old(sounds)@,
                texts: old(texts)@,
                despawns: old(despawns)@,
            }),
            reg.list@.len() == s.len(),
            all_pickups_in_world(pickups@),
            forall|k: int| j <= k < s.len() ==> reg.list@[k] == s[k],
            forall|k: int| 0 <= k < s.len() ==> (#[trigger] reg.list@[k]).id == s[k].id,
            ({
                let out = nova_volley(
                    s,
                    pos,
                    radius as int,
                    damage as int,
                    mult_pct,
                    dur_ms,
                    now_ms,
                    init,
                    j as int,
                );
                &&& reg.list@ == out.enemies
                &&& *score == out.score
                &&& pickups@ == out.pickups
                &&& sounds@ == out.sounds
                &&& texts@ == out.texts
                &&& despawns@ == out.despawns
            }),
        decreases n - j,
    {
        let e = reg.list[j];
        if circles_collide(pos, radius, e.pos, 0) {
            sounds.push(SoundEffect::EnemyHit);
            texts.push(DamageText { pos: e.pos, amount: damage, timestamp_ms: now_ms });
            let nh: i32 = crate::resolve::sub_health(e.health, damage);
            let died = e.health > 0 && nh <= 0;
            let mut e2 = e;
            e2.health = nh;
            e2.frozen = Option::Some(crate::enemy::Frozen {
                timer: Timer::new(dur_ms, TimerMode::Once),
                speed_mult_pct: mult_pct,
            });
            reg.list.set(j, e2);
            proof {
                let s2 = reg.list@;
                assert(forall|k: int| 0 <= k < s2.len() ==> (#[trigger] s2[k]).id == s[k].id);
                assert(forall|a: int, b: int|
                    0 <= a < b < s2.len() ==> (#[trigger] s2[a]).id != (#[trigger] s2[b]).id);
            }
            if died {
                sounds.push(SoundEffect::EnemyDeath);
                *score = crate::resolve::add_score(*score, SCORE_PER_KILL);
                pickups.push(Pickup { pos: e.pos, xp_value: EXP_ORB_VALUE });
                despawns.push(e.id);
            }
        }
        j += 1;
    }
}

/// One nova's step: the lifetime advances; on the first tick of its life
/// (before the burst window closes at half the lifetime) it bursts exactly
/// once; an elapsed nova despawns.
pub open spec fn nova_step(nv: FreezingNovaEffect, st: VolleyOut, dt_ms: u64, now_ms: u64) -> (
    VolleyOut,
    Option<FreezingNovaEffect>,
) {
    let lt = nv.lifetime_timer.spec_tick(dt_ms);
    let bursts = !nv.fired && 2 * lt.elapsed_ms < lt.duration_ms;
    let st2 = if bursts {
        nova_volley(
            st.enemies,
            nv.pos,
            nv.radius as int,
            nv.damage as int,
            nv.slow_mult_pct,
            nv.slow_duration_ms,
            now_ms,
            st,
            st.enemies.len() as int,
        )
    } else {
        st
    };
    if lt.finished {
        (st2, Option::None)
    } else {
        (
            st2,
            Option::Some(FreezingNovaEffect {
                lifetime_timer: lt,
                fired: nv.fired || bursts,
                ..nv
            }),
        )
    }
}

/// Every nova's step, in order.
pub open spec fn novas_resolve(ns: Seq<FreezingNovaEffect>, st: VolleyOut, dt_ms: u64, now_ms: u64) -> (
    VolleyOut,
    Seq<FreezingNovaEffect>,
)
    decreases ns.len(),
{
    if ns.len() == 0 {
        (st, Seq::empty())
    } else {
        let prev = novas_resolve(ns.drop_last(), st, dt_ms, now_ms);
        let step = nova_step(ns.last(), prev.0, dt_ms, now_ms);
        (
            step.0,
            match step.1 {
                Option::Some(x) => prev.1.push(x),
                Option::None => prev.1,
            },
        )
    }
}

/// Advance every nova; each bursts exactly once early in its life, damaging
/// and slowing everyone within its radius, as `nova_step` states.
pub fn freezing_nova_effect_damage_system(
    novas: &mut Vec<FreezingNovaEffect>,
    reg: &mut EnemyRegistry,
    dt_ms: u64,
    now_ms: u64,
    score: &mut u32,
    pickups: &mut Vec<Pickup>,
    sounds: &mut Vec<SoundEffect>,
    texts: &mut Vec<DamageText>,
    despawns: &mut Vec<u64>,
)
    requires
        all_novas_wf(old(novas)@),
        old(reg).wf(),
        dt_ms <= MAX_TIME_MS,
        all_pickups_in_world(old(pickups)@),
    ensures
        final(reg).wf(),
        final(reg).list@.len() == old(reg).list@.len(),
        forall|k: int|
            0 <= k < final(reg).list@.len() ==> (#[trigger] final(reg).list@[k]).id == old(reg).list@[k].id,
        all_novas_wf(final(novas)@),
        all_pickups_in_world(final(pickups)@),
        ({
            let r = novas_resolve(
                old(novas)@,
                VolleyOut {
                    enemies: old(reg).list@,
                    score: *old(score) as int,
                    pickups: old(pickups)@,
                    sounds: old(sounds)@,
                    texts: old(texts)@,
                    despawns: old(despawns)@,
                },
                dt_ms,
                now_ms,
            );
            &&& final(novas)@ == r.1
            &&& final(reg).list@ == r.0.enemies
            &&& *final(score) == r.0.score
            &&& final(pickups)@ == r.0.pickups
            &&& final(sounds)@ == r.0.sounds
            &&& final(texts)@ == r.0.texts
            &&& final(despawns)@ == r.0.despawns
        }),
{
    let ghost init = VolleyOut {
        enemies: old(reg).list@,
        score: *old(score) as int,
        pickups: old(pickups)@,
        sounds: old(sounds)@,
        texts: old(texts)@,
        despawns: old(despawns)@,
    };
    let n: usize = novas.len();
    let mut kept: Vec<FreezingNovaEffect> = Vec::new();
    let mut i: usize = 0;
    proof {
        assert(old(novas)@.take(0) =~= Seq::<FreezingNovaEffect>::empty());
    }
    while i < n
        invariant
            all_novas_wf(old(novas)@),
            dt_ms <= MAX_TIME_MS,
            0 <= i <= n,
            n == old(novas)@.len(),
            novas@ == old(novas)@,
            reg.wf(),
            reg.list@.len() == old(reg).list@.len(),
            forall|k: int|
                0 <= k < reg.list@.len() ==> (#[trigger] reg.list@[k]).id == old(reg).list@[k].id,
            all_pickups_in_world(pickups@),
            all_novas_wf(kept@),
            init == (VolleyOut {
                enemies: old(reg).list@,
                score: *old(score) as int,
                pickups: old(pickups)@,
                sounds: old(sounds)@,
                texts: old(texts)@,
                despawns: old(despawns)@,
            }),
            ({
                let r = novas_resolve(old(novas)@.take(i as int), init, dt_ms, now_ms);
                &&& kept@ == r.1
                &&& reg.list@ == r.0.enemies
                &&& *score == r.0.score
                &&& pickups@ == r.0.pickups
                &&& sounds@ == r.0.sounds
                &&& texts@ == r.0.texts
                &&& despawns@ == r.0.despawns
            }),
        decreases n - i,
    {
        proof {
            assert(old(novas)@.take(i as int + 1).drop_last() =~= old(novas)@.take(i as int));
            assert(old(novas)@.take(i as int + 1).last() == old(novas)@[i as int]);
        }
        let mut nv = novas[i];
        nv.lifetime_timer.tick(dt_ms);
        let bursts = !nv.fired && 2 * nv.lifetime_timer.elapsed_ms < nv.lifetime_timer.duration_ms;
        if bursts {
            nova_strike(
                reg,
                nv.pos,
                nv.radius,
                nv.damage,
                nv.slow_mult_pct,
                nv.slow_duration_ms,
                now_ms,
                score,
                pickups,
                sounds,
                texts,
                despawns,
            );
            nv.fired = true;
        }
        if !nv.lifetime_timer.finished() {
            kept.push(nv);
        }
        i += 1;
    }
    proof {
        assert(old(novas)@.take(n as int) =~= old(novas)@);
    }
    *novas = kept;
}

/// A timed self-buff on the player.
#[derive(Clone, Copy, PartialEq, Eq, Structural, Debug)]
pub struct SurvivorBuffEffect {
    pub speed_bonus_pct: u32,
    pub fire_rate_bonus_pct: u32,
    pub duration_timer: Timer,
}

impl SurvivorBuffEffect {
    pub open spec fn wf(self) -> bool {
        self.duration_timer.wf() && self.duration_timer.mode == TimerMode::Once
    }
}

/// Advance the buff's duration; an elapsed buff falls off.
pub fn survivor_buff_management_system(buff: &mut Option<SurvivorBuffEffect>, dt_ms: u64)
    requires
        match *old(buff) {
            Option::Some(b) => b.wf(),
            Option::None => true,
        },
        dt_ms <= MAX_TIME_MS,
    ensures
        *final(buff) == match *old(buff) {
            Option::Some(b) => {
                let t2 = b.duration_timer.spec_tick(dt_ms);
                if t2.finished {
                    Option::<SurvivorBuffEffect>::None
                } else {
                    Option::Some(SurvivorBuffEffect { duration_timer: t2, ..b })
                }
            },
            Option::None => Option::<SurvivorBuffEffect>::None,
        },
        match *final(buff) {
            Option::Some(b) => b.wf(),
            Option::None => true,
        },
{
    if let Option::Some(b) = buff {
        let mut t = b.duration_timer;
        t.tick(dt_ms);
        if t.finished() {
            *buff = Option::None;
        } else {
            *buff = Option::Some(SurvivorBuffEffect { duration_timer: t, ..*b });
        }
    }
}

impl SkillDefinition {
    /// Catalog entries keep their tunables within the world's limits.
    pub open spec fn wf(self) -> bool {
        &&& 1 <= self.base_cooldown_ms <= 1_000_000_000
        &&& match self.effect {
            SkillEffectType::Projectile { base_damage, speed, radius, lifetime_ms, piercing } => {
                &&& 0 <= base_damage <= 100_000
                &&& 0 <= speed <= VEL_LIMIT
                &&& 0 <= radius <= RADIUS_LIMIT
                &&& 1 <= lifetime_ms <= 1_000_000_000_000
                &&& piercing <= 1_000_000
            },
            SkillEffectType::AreaOfEffect {
                base_damage_per_tick,
                base_radius,
                tick_interval_ms,
                duration_ms,
            } => {
                &&& 0 <= base_damage_per_tick <= 100_000
                &&& 0 <= base_radius <= RADIUS_LIMIT
                &&& 1 <= tick_interval_ms <= 1_000_000_000_000
                &&& 1 <= duration_ms <= 1_000_000_000_000
            },
            SkillEffectType::SurvivorBuff { speed_bonus_pct, fire_rate_bonus_pct, duration_ms } => {
                &&& speed_bonus_pct <= 10_000
                &&& fire_rate_bonus_pct <= 10_000
                &&& 1 <= duration_ms <= 1_000_000_000_000
            },
            SkillEffectType::SummonSentry {
                sentry_damage_per_tick,
                sentry_radius,
                sentry_tick_interval_ms,
                sentry_duration_ms,
            } => {
                &&& 0 <= sentry_damage_per_tick <= 100_000
                &&& 0 <= sentry_radius <= RADIUS_LIMIT
                &&& 1 <= sentry_tick_interval_ms <= 1_000_000_000_000
                &&& 1 <= sentry_duration_ms <= 1_000_000_000_000
            },
            SkillEffectType::FreezingNova {
                damage,
                radius,
                nova_duration_ms,
                slow_mult_pct,
                slow_duration_ms,
            } => {
                &&& 0 <= damage <= 100_000
                &&& 0 <= radius <= RADIUS_LIMIT
                &&& 1 <= nova_duration_ms <= 1_000_000_000_000
                &&& slow_mult_pct <= 100
                &&& 1 <= slow_duration_ms <= 1_000_000_000_000
            },
        }
    }
}

pub open spec fn library_wf(s: Seq<SkillDefinition>) -> bool {
    forall|i: int| 0 <= i < s.len() ==> (#[trigger] s[i]).wf()
}

pub open spec fn all_instances_wf(s: Seq<ActiveSkillInstance>) -> bool {
    forall|i: int| 0 <= i < s.len() ==> (#[trigger] s[i]).wf()
}

/// Where a cast projectile appears: offset from the player along the aim by
/// the two bodies' radii.
pub open spec fn cast_spawn_pos(player_pos: Vec2I, aim: Vec2I, radius: int) -> Vec2I {
    Vec2I {
        x: crate::geom::clamp_coord(
            player_pos.x + crate::geom::tdiv(aim.x * (25_000 + radius), 1000),
        ) as i64,
        y: crate::geom::clamp_coord(
            player_pos.y + crate::geom::tdiv(aim.y * (25_000 + radius), 1000),
        ) as i64,
    }
}

/// An area radius under the instance's radius multiplier, capped at the
/// world's radius limit.
pub open spec fn scaled_radius(base: int, mult_pct: int) -> int {
    let r = base * mult_pct / 100;
    if r > RADIUS_LIMIT {
        RADIUS_LIMIT as int
    } else {
        r
    }
}

/// Whether a trigger request casts: the slot exists, its cooldown has
/// drained, its definition is in the catalog, and — for a projectile skill —
/// the aim is a usable direction (a zero aim spawns nothing and keeps the
/// cooldown).
pub open spec fn spec_casts(
    insts: Seq<ActiveSkillInstance>,
    lib: Seq<SkillDefinition>,
    idx: int,
    aim: Vec2I,
) -> bool {
    &&& 0 <= idx < insts.len()
    &&& insts[idx].current_cooldown_ms == 0
    &&& match spec_find_skill(lib, insts[idx].definition_id) {
        Option::Some(di) => match lib[di].effect {
            SkillEffectType::Projectile { .. } => !aim.is_zero(),
            _ => true,
        },
        Option::None => false,
    }
}

/// Cast the skill in slot `idx`, if it is ready and known: the effect is
/// applied once — a projectile spawns along the aim, an area zone or sentry
/// or nova appears at the player, or the self-buff is (re)applied — and the
/// instance's cooldown restarts at its modified duration.  Returns whether
/// a cast happened; a missing slot, a ticking cooldown, an unknown
/// definition, or a zero aim for a projectile skill are soft no-ops.
pub fn trigger_skill(
    skills: &mut Vec<ActiveSkillInstance>,
    library: &SkillLibrary,
    idx: usize,
    player_pos: Vec2I,
    aim: Vec2I,
    projs: &mut Vec<SkillProjectile>,
    aoes: &mut Vec<ActiveSkillAoEEffect>,
    novas: &mut Vec<FreezingNovaEffect>,
    buff: &mut Option<SurvivorBuffEffect>,
) -> (cast: bool)
    requires
        all_instances_wf(old(skills)@),
        library_wf(library.skills@),
        player_pos.in_world(),
        -1000 <= aim.x <= 1000,
        -1000 <= aim.y <= 1000,
        all_sprojs_wf(old(projs)@),
        all_aoes_wf(old(aoes)@),
        all_novas_wf(old(novas)@),
        match *old(buff) {
            Option::Some(b) => b.wf(),
            Option::None => true,
        },
    ensures
        all_instances_wf(final(skills)@),
        all_sprojs_wf(final(projs)@),
        all_aoes_wf(final(aoes)@),
        all_novas_wf(final(novas)@),
        match *final(buff) {
            Option::Some(b) => b.wf(),
            Option::None => true,
        },
        cast == spec_casts(old(skills)@, library.skills@, idx as int, aim),
        !cast ==> final(skills)@ == old(skills)@ && sproj_views(final(projs)@) == sproj_views(
            old(projs)@,
        ) && final(aoes)@ == old(aoes)@ && final(novas)@ == old(novas)@ && *final(buff) == *old(
            buff,
        ),
        cast ==> ({
            let inst = old(skills)@[idx as int];
            let di = spec_find_skill(library.skills@, inst.definition_id)->Some_0;
            let def = library.skills@[di];
            &&& final(skills)@ == old(skills)@.update(
                idx as int,
                ActiveSkillInstance {
                    current_cooldown_ms: spec_triggered_cooldown(
                        def.base_cooldown_ms as int,
                        inst.cooldown_multiplier_pct as int,
                    ) as u64,
                    ..inst
                },
            )
            &&& match def.effect {
                SkillEffectType::Projectile { base_damage, speed, radius, lifetime_ms, piercing } => {
                    &&& sproj_views(final(projs)@) == sproj_views(old(projs)@).push(
                        SpecProjectile {
                            skill_id: def.id,
                            pos: cast_spawn_pos(player_pos, aim, radius as int),
                            vel: norm_scaled_spec(aim, speed as int),
                            damage: (base_damage + inst.flat_damage_bonus) as i32,
                            radius: radius,
                            piercing_left: piercing,
                            bounces_left: 0u32,
                            already_hit: Seq::empty(),
                            lifetime: spec_sproj_lifetime(lifetime_ms),
                            speed: speed,
                            base_piercing: piercing,
                            lifetime_ms: lifetime_ms,
                        },
                    )
                    &&& final(aoes)@ == old(aoes)@
                    &&& final(novas)@ == old(novas)@
                    &&& *final(buff) == *old(buff)
                },
                SkillEffectType::AreaOfEffect {
                    base_damage_per_tick,
                    base_radius,
                    tick_interval_ms,
                    duration_ms,
                } => {
                    &&& final(aoes)@ == old(aoes)@.push(ActiveSkillAoEEffect {
                        skill_id: def.id,
                        pos: player_pos,
                        actual_damage_per_tick: (base_damage_per_tick
                            + inst.flat_damage_bonus) as i32,
                        actual_radius: scaled_radius(
                            base_radius as int,
                            inst.aoe_radius_multiplier_pct as int,
                        ) as i64,
                        tick_timer: crate::bullet::spec_fresh_repeating(tick_interval_ms),
                        lifetime_timer: spec_sproj_lifetime(duration_ms),
                    })
                    &&& sproj_views(final(projs)@) == sproj_views(old(projs)@)
                    &&& final(novas)@ == old(novas)@
                    &&& *final(buff) == *old(buff)
                },
                SkillEffectType::SurvivorBuff {
                    speed_bonus_pct,
                    fire_rate_bonus_pct,
                    duration_ms,
                } => {
                    &&& *final(buff) == Option::Some(SurvivorBuffEffect {
                        speed_bonus_pct,
                        fire_rate_bonus_pct,
                        duration_timer: spec_sproj_lifetime(duration_ms),
                    })
                    &&& sproj_views(final(projs)@) == sproj_views(old(projs)@)
                    &&& final(aoes)@ == old(aoes)@
                    &&& final(novas)@ == old(novas)@
                },
                SkillEffectType::SummonSentry {
                    sentry_damage_per_tick,
                    sentry_radius,
                    sentry_tick_interval_ms,
                    sentry_duration_ms,
                } => {
                    &&& final(aoes)@ == old(aoes)@.push(ActiveSkillAoEEffect {
                        skill_id: def.id,
                        pos: player_pos,
                        actual_damage_per_tick: (sentry_damage_per_tick
                            + inst.flat_damage_bonus) as i32,
                        actual_radius: scaled_radius(
                            sentry_radius as int,
                            inst.aoe_radius_multiplier_pct as int,
                        ) as i64,
                        tick_timer: crate::bullet::spec_fresh_repeating(sentry_tick_interval_ms),
                        lifetime_timer: spec_sproj_lifetime(sentry_duration_ms),
                    })
                    &&& sproj_views(final(projs)@) == sproj_views(old(projs)@)
                    &&& final(novas)@ == old(novas)@
                    &&& *final(buff) == *old(buff)
                },
                SkillEffectType::FreezingNova {
                    damage,
                    radius,
                    nova_duration_ms,
                    slow_mult_pct,
                    slow_duration_ms,
                } => {
                    &&& final(novas)@ == old(novas)@.push(FreezingNovaEffect {
                        pos: player_pos,
                        damage: (damage + inst.flat_damage_bonus) as i32,
                        radius: scaled_radius(
                            radius as int,
                            inst.aoe_radius_multiplier_pct as int,
                        ) as i64,
                        lifetime_timer: spec_sproj_lifetime(nova_duration_ms),
                        slow_mult_pct,
                        slow_duration_ms,
                        fired: false,
                    })
                    &&& sproj_views(final(projs)@) == sproj_views(old(projs)@)
                    &&& final(aoes)@ == old(aoes)@
                    &&& *final(buff) == *old(buff)
                },
            }
        }),
{
    if idx >= skills.len() {
        return false;
    }
    let inst = skills.remove(idx);
    if inst.current_cooldown_ms != 0 {
        skills.insert(idx, inst);
        proof {
            assert(skills@ =~= old(skills)@);
        }
        return false;
    }
    let found = library.get_skill_definition(inst.definition_id);
    match found {
        Option::None => {
            skills.insert(idx, inst);
            proof {
                assert(skills@ =~= old(skills)@);
            }
            false
        },
        Option::Some(def) => {
            proof {
                lemma_find_skill_in_range(library.skills@, inst.definition_id);
                assert(def.wf());
            }
            if matches!(def.effect, SkillEffectType::Projectile { .. }) && aim.x == 0 && aim.y
                == 0 {
                skills.insert(idx, inst);
                proof {
                    assert(skills@ =~= old(skills)@);
                }
                return false;
            }
            let base_cooldown = def.base_cooldown_ms;
            match def.effect {
                SkillEffectType::Projectile { base_damage, speed, radius, lifetime_ms, piercing } => {
                    let off: i64 = 25_000 + radius;
                    proof {
                        assert(-1_100_000_000_000 <= aim.x * off <= 1_100_000_000_000
                            && -1_100_000_000_000 <= aim.y * off <= 1_100_000_000_000)
                            by (nonlinear_arith)
                            requires
                                -1000 <= aim.x <= 1000,
                                -1000 <= aim.y <= 1000,
                                0 <= off <= 1_100_000_000,
                        ;
                        crate::geom::lemma_tdiv_bounds(aim.x * off as int, 1000);
                        crate::geom::lemma_tdiv_bounds(aim.y * off as int, 1000);
                    }
                    let sx: i64 = crate::geom::div_trunc(aim.x * off, 1000);
                    let sy: i64 = crate::geom::div_trunc(aim.y * off, 1000);
                    let rx: i64 = player_pos.x + sx;
                    let ry: i64 = player_pos.y + sy;
                    let px: i64 = if rx < -crate::geom::COORD_LIMIT {
                        -crate::geom::COORD_LIMIT
                    } else if rx > crate::geom::COORD_LIMIT {
                        crate::geom::COORD_LIMIT
                    } else {
                        rx
                    };
                    let py: i64 = if ry < -crate::geom::COORD_LIMIT {
                        -crate::geom::COORD_LIMIT
                    } else if ry > crate::geom::COORD_LIMIT {
                        crate::geom::COORD_LIMIT
                    } else {
                        ry
                    };
                    let vel = norm_scaled(aim, speed);
                    let ghost before = projs@;
                    projs.push(SkillProjectile {
                        skill_id: def.id,
                        pos: Vec2I { x: px, y: py },
                        vel,
                        damage: base_damage + inst.flat_damage_bonus,
                        radius,
                        piercing_left: piercing,
                        bounces_left: 0,
                        already_hit: Vec::new(),
                        lifetime: Timer::new(lifetime_ms, TimerMode::Once),
                        speed,
                        base_piercing: piercing,
                        lifetime_ms,
                    });
                    proof {
                        assert(sproj_views(projs@) =~= sproj_views(before).push(
                            projs@[projs@.len() - 1]@,
                        ));
                    }
                },
                SkillEffectType::AreaOfEffect {
                    base_damage_per_tick,
                    base_radius,
                    tick_interval_ms,
                    duration_ms,
                } => {
                    aoes.push(ActiveSkillAoEEffect {
                        skill_id: def.id,
                        pos: player_pos,
                        actual_damage_per_tick: base_damage_per_tick + inst.flat_damage_bonus,
                        actual_radius: scale_radius(base_radius, inst.aoe_radius_multiplier_pct),
                        tick_timer: Timer::new(tick_interval_ms, TimerMode::Repeating),
                        lifetime_timer: Timer::new(duration_ms, TimerMode::Once),
                    });
                },
                SkillEffectType::SurvivorBuff {
                    speed_bonus_pct,
                    fire_rate_bonus_pct,
                    duration_ms,
                } => {
                    *buff = Option::Some(SurvivorBuffEffect {
                        speed_bonus_pct,
                        fire_rate_bonus_pct,
                        duration_timer: Timer::new(duration_ms, TimerMode::Once),
                    });
                },
                SkillEffectType::SummonSentry {
                    sentry_damage_per_tick,
                    sentry_radius,
                    sentry_tick_interval_ms,
                    sentry_duration_ms,
                } => {
                    aoes.push(ActiveSkillAoEEffect {
                        skill_id: def.id,
                        pos: player_pos,
                        actual_damage_per_tick: sentry_damage_per_tick + inst.flat_damage_bonus,
                        actual_radius: scale_radius(sentry_radius, inst.aoe_radius_multiplier_pct),
                        tick_timer: Timer::new(sentry_tick_interval_ms, TimerMode::Repeating),
                        lifetime_timer: Timer::new(sentry_duration_ms, TimerMode::Once),
                    });
                },
                SkillEffectType::FreezingNova {
                    damage,
                    radius,
                    nova_duration_ms,
                    slow_mult_pct,
                    slow_duration_ms,
                } => {
                    novas.push(FreezingNovaEffect {
                        pos: player_pos,
                        damage: damage + inst.flat_damage_bonus,
                        radius: scale_radius(radius, inst.aoe_radius_multiplier_pct),
                        lifetime_timer: Timer::new(nova_duration_ms, TimerMode::Once),
                        slow_mult_pct,
                        slow_duration_ms,
                        fired: false,
                    });
                },
            }
            let mut inst2 = inst;
            inst2.trigger(base_cooldown);
            skills.insert(idx, inst2);
            proof {
                assert(skills@ =~= old(skills)@.update(
                    idx as int,
                    ActiveSkillInstance {
                        current_cooldown_ms: skills@[idx as int].current_cooldown_ms,
                        ..old(skills)@[idx as int]
                    },
                ));
            }
            true
        },
    }
}

/// An area radius under a percent multiplier, capped at the world's limit,
/// as executable code.
fn scale_radius(base: i64, mult_pct: u32) -> (r: i64)
    requires
        0 <= base <= RADIUS_LIMIT,
        100 <= mult_pct <= 100_000,
    ensures
        r == scaled_radius(base as int, mult_pct as int),
        0 <= r <= RADIUS_LIMIT,
{
    let m: i64 = mult_pct as i64;
    proof {
        assert(0 <= base * m <= 100_000_000_000_000) by (nonlinear_arith)
            requires
                0 <= base <= 1_000_000_000,
                0 <= m <= 100_000,
        ;
        crate::geom::lemma_tdiv_bounds(base * m as int, 100);
    }
    let scaled: i64 = (base * m) / 100;
    if scaled > RADIUS_LIMIT {
        RADIUS_LIMIT
    } else {
        scaled
    }
}

} // verus!
