//! The upgrade catalog and the random offer drawn from it.
//!
//! The catalog is read-only after initialization; a per-session offer is a
//! transient subset drawn without replacement.

use vstd::prelude::*;
use crate::rng::rand_below;

verus! {

#[derive(Clone, Copy, PartialEq, Eq, Structural, Debug, Hash)]
pub struct UpgradeId(pub u32);

/// The closed set of upgrade effects.  Percentages are plain integers;
/// radii and rates are milli-units and milli-points as everywhere else.
#[derive(Clone, Copy, PartialEq, Eq, Structural, Debug)]
pub enum UpgradeType {
    PlayerSpeed(u32),
    MaxHealth(i32),
    BulletDamage(i32),
    FireRate(u32),
    ProjectileSpeed(u32),
    ProjectilePiercing(u32),
    XPGainMultiplier(u32),
    PickupRadiusIncrease(u32),
    IncreaseProjectileCount(u32),
    UnlockAoeAuraWeapon,
    IncreaseAoeAuraRadius(u32),
    IncreaseAoeAuraDamage(i32),
    DecreaseAoeAuraTickRate(u32),
    HealthRegeneration(i64),
    UnlockOrbitingSeeds,
    IncreaseOrbiterCount(u32),
    IncreaseOrbiterDamage(i32),
    IncreaseOrbiterRadius(i64),
    IncreaseOrbiterRotationSpeed(u32),
}

impl UpgradeType {
    /// Catalog effects stay within bounds the stat block can absorb.
    pub open spec fn wf(self) -> bool {
        match self {
            UpgradeType::PlayerSpeed(pct) => pct <= 1000,
            UpgradeType::MaxHealth(amount) => 0 <= amount <= 1_000_000,
            UpgradeType::BulletDamage(bonus) => 0 <= bonus <= 100_000,
            UpgradeType::FireRate(pct) => pct <= 99,
            UpgradeType::ProjectileSpeed(pct) => pct <= 1000,
            UpgradeType::ProjectilePiercing(amount) => amount <= 1000,
            UpgradeType::XPGainMultiplier(pct) => pct <= 1000,
            UpgradeType::PickupRadiusIncrease(pct) => pct <= 1000,
            UpgradeType::IncreaseProjectileCount(amount) => amount <= 100,
            UpgradeType::UnlockAoeAuraWeapon => true,
            UpgradeType::IncreaseAoeAuraRadius(pct) => pct <= 1000,
            UpgradeType::IncreaseAoeAuraDamage(amount) => 0 <= amount <= 100_000,
            UpgradeType::DecreaseAoeAuraTickRate(pct) => pct <= 99,
            UpgradeType::HealthRegeneration(milli) => 0 <= milli <= 1_000_000,
            UpgradeType::UnlockOrbitingSeeds => true,
            UpgradeType::IncreaseOrbiterCount(amount) => amount <= 100,
            UpgradeType::IncreaseOrbiterDamage(amount) => 0 <= amount <= 100_000,
            UpgradeType::IncreaseOrbiterRadius(mu) => 0 <= mu <= 1_000_000_000,
            UpgradeType::IncreaseOrbiterRotationSpeed(ddps) => ddps <= 36_000_000,
        }
    }
}

/// An immutable catalog entry.
#[derive(Clone, Debug)]
pub struct UpgradeCard {
    pub id: UpgradeId,
    pub name: String,
    pub description: String,
    pub upgrade_type: UpgradeType,
}

impl UpgradeCard {
    /// A copy of this card (field for field).
    pub fn duplicate(&self) -> (r: UpgradeCard)
        ensures
            r.id == self.id,
            r.upgrade_type == self.upgrade_type,
            r.name@ == self.name@,
            r.description@ == self.description@,
    {
        UpgradeCard {
            id: self.id,
            name: self.name.clone(),
            description: self.description.clone(),
            upgrade_type: self.upgrade_type,
        }
    }
}

/// The transient subset offered on a level-up.
pub struct OfferedUpgrades {
    pub choices: Vec<UpgradeCard>,
}

/// The process-wide catalog.
pub struct UpgradePool {
    pub available_upgrades: Vec<UpgradeCard>,
}

pub open spec fn pool_wf(s: Seq<UpgradeCard>) -> bool {
    &&& forall|i: int, j: int| 0 <= i < j < s.len() ==> s[i].id != s[j].id
    &&& forall|i: int| 0 <= i < s.len() ==> (#[trigger] s[i]).upgrade_type.wf()
}

impl UpgradePool {
    pub open spec fn wf(self) -> bool {
        pool_wf(self.available_upgrades@)
    }

    /// Draw `count` cards without replacement, uniformly: the offer holds
    /// `count` cards (fewer only when the catalog is smaller), each matching
    /// a catalog entry, no two from the same entry.
    pub fn get_random_upgrades(&self, count: usize) -> (r: Vec<UpgradeCard>)
        requires
            self.wf(),
        ensures
            r@.len() == if count <= self.available_upgrades@.len() {
                count as int
            } else {
                self.available_upgrades@.len() as int
            },
            forall|m: int|
                0 <= m < r@.len() ==> exists|j: int|
                    0 <= j < self.available_upgrades@.len() && (#[trigger] r@[m]).id
                        == self.available_upgrades@[j].id && r@[m].upgrade_type
                        == self.available_upgrades@[j].upgrade_type,
            forall|m1: int, m2: int| 0 <= m1 < m2 < r@.len() ==> r@[m1].id != r@[m2].id,
            forall|m: int| 0 <= m < r@.len() ==> (#[trigger] r@[m]).upgrade_type.wf(),
    {
        let ghost pool = self.available_upgrades@;
        let n: usize = self.available_upgrades.len();
        let mut indices: Vec<usize> = Vec::new();
        let mut k: usize = 0;
        while k < n
            invariant
                0 <= k <= n,
                indices@.len() == k,
                forall|m: int| 0 <= m < k ==> indices@[m] == m,
            decreases n - k,
        {
            indices.push(k);
            k += 1;
        }
        let want: usize = if count <= n {
            count
        } else {
            n
        };
        let mut r: Vec<UpgradeCard> = Vec::new();
        let mut taken: usize = 0;
        while taken < want
            invariant
                self.wf(),
                pool == self.available_upgrades@,
                n == pool.len(),
                want <= n,
                0 <= taken <= want,
                r@.len() == taken,
                indices@.len() == n - taken,
                forall|m: int| 0 <= m < indices@.len() ==> (#[trigger] indices@[m]) < n,
                forall|m1: int, m2: int|
                    0 <= m1 < m2 < indices@.len() ==> indices@[m1] != indices@[m2],
                forall|m: int|
                    0 <= m < r@.len() ==> exists|j: int|
                        0 <= j < pool.len() && (#[trigger] r@[m]).id == pool[j].id
                            && r@[m].upgrade_type == pool[j].upgrade_type,
                forall|m: int| 0 <= m < r@.len() ==> (#[trigger] r@[m]).upgrade_type.wf(),
                forall|m1: int, m2: int| 0 <= m1 < m2 < r@.len() ==> r@[m1].id != r@[m2].id,
                forall|m: int, v: int|
                    0 <= m < r@.len() && 0 <= v < indices@.len() ==> (#[trigger] r@[m]).id != pool[(
                    #[trigger] indices@[v]) as int].id,
            decreases want - taken,
        {
            let pick: usize = rand_below(indices.len());
            let idx: usize = indices.remove(pick);
            let card = self.available_upgrades[idx].duplicate();
            proof {
                assert(card.id == pool[idx as int].id);
            }
            r.push(card);
            taken += 1;
        }
        r
    }
}

/// The id and effect of the `i`-th catalog card.
pub open spec fn spec_catalog_entry(i: int) -> (UpgradeId, UpgradeType) {
    if i == 0 {
        (UpgradeId(0), UpgradeType::PlayerSpeed(10))
    } else if i == 1 {
        (UpgradeId(5), UpgradeType::PlayerSpeed(15))
    } else if i == 2 {
        (UpgradeId(1), UpgradeType::MaxHealth(20))
    } else if i == 3 {
        (UpgradeId(6), UpgradeType::MaxHealth(30))
    } else if i == 4 {
        (UpgradeId(2), UpgradeType::BulletDamage(5))
    } else if i == 5 {
        (UpgradeId(7), UpgradeType::BulletDamage(8))
    } else if i == 6 {
        (UpgradeId(3), UpgradeType::FireRate(15))
    } else if i == 7 {
        (UpgradeId(8), UpgradeType::FireRate(20))
    } else if i == 8 {
        (UpgradeId(4), UpgradeType::ProjectileSpeed(20))
    } else if i == 9 {
        (UpgradeId(9), UpgradeType::ProjectilePiercing(1))
    } else if i == 10 {
        (UpgradeId(12), UpgradeType::ProjectilePiercing(2))
    } else if i == 11 {
        (UpgradeId(10), UpgradeType::XPGainMultiplier(20))
    } else if i == 12 {
        (UpgradeId(13), UpgradeType::XPGainMultiplier(30))
    } else if i == 13 {
        (UpgradeId(11), UpgradeType::PickupRadiusIncrease(25))
    } else if i == 14 {
        (UpgradeId(200), UpgradeType::IncreaseProjectileCount(1))
    } else if i == 15 {
        (UpgradeId(201), UpgradeType::IncreaseProjectileCount(2))
    } else if i == 16 {
        (UpgradeId(100), UpgradeType::UnlockAoeAuraWeapon)
    } else if i == 17 {
        (UpgradeId(101), UpgradeType::IncreaseAoeAuraRadius(20))
    } else if i == 18 {
        (UpgradeId(102), UpgradeType::IncreaseAoeAuraDamage(2))
    } else if i == 19 {
        (UpgradeId(103), UpgradeType::DecreaseAoeAuraTickRate(15))
    } else if i == 20 {
        (UpgradeId(300), UpgradeType::HealthRegeneration(500))
    } else if i == 21 {
        (UpgradeId(301), UpgradeType::HealthRegeneration(1000))
    } else if i == 22 {
        (UpgradeId(400), UpgradeType::UnlockOrbitingSeeds)
    } else if i == 23 {
        (UpgradeId(401), UpgradeType::IncreaseOrbiterCount(1))
    } else if i == 24 {
        (UpgradeId(402), UpgradeType::IncreaseOrbiterDamage(3))
    } else if i == 25 {
        (UpgradeId(403), UpgradeType::IncreaseOrbiterRadius(15_000))
    } else {
        (UpgradeId(404), UpgradeType::IncreaseOrbiterRotationSpeed(290))
    }
}

/// How many cards the catalog holds.
pub const CATALOG_SIZE: usize = 27;

/// The fixed catalog of upgrade cards, entry for entry as
/// `spec_catalog_entry` states; building it twice gives the same catalog.
pub fn initialize_upgrade_pool() -> (r: UpgradePool)
    ensures
        r.wf(),
        r.available_upgrades@.len() == CATALOG_SIZE,
        forall|i: int|
            0 <= i < CATALOG_SIZE ==> ((#[trigger] r.available_upgrades@[i]).id,
            r.available_upgrades@[i].upgrade_type) == spec_catalog_entry(i),
{
    let mut v: Vec<UpgradeCard> = Vec::new();
    v.push(UpgradeCard {
        id: UpgradeId(0),
        name: "Preternatural Speed".to_string(),
        description: "Move 10 percent faster.".to_string(),
        upgrade_type: UpgradeType::PlayerSpeed(10),
    });
    v.push(UpgradeCard {
        id: UpgradeId(5),
        name: "Otherworldly Agility".to_string(),
        description: "Move 15 percent faster.".to_string(),
        upgrade_type: UpgradeType::PlayerSpeed(15),
    });
    v.push(UpgradeCard {
        id: UpgradeId(1),
        name: "Enduring Form".to_string(),
        description: "Gain 20 max health.".to_string(),
        upgrade_type: UpgradeType::MaxHealth(20),
    });
    v.push(UpgradeCard {
        id: UpgradeId(6),
        name: "Resilient Corpus".to_string(),
        description: "Gain 30 max health.".to_string(),
        upgrade_type: UpgradeType::MaxHealth(30),
    });
    v.push(UpgradeCard {
        id: UpgradeId(2),
        name: "Focused Will".to_string(),
        description: "Bullets deal 5 more damage.".to_string(),
        upgrade_type: UpgradeType::BulletDamage(5),
    });
    v.push(UpgradeCard {
        id: UpgradeId(7),
        name: "Piercing Thoughts".to_string(),
        description: "Bullets deal 8 more damage.".to_string(),
        upgrade_type: UpgradeType::BulletDamage(8),
    });
    v.push(UpgradeCard {
        id: UpgradeId(3),
        name: "Rapid Cognition".to_string(),
        description: "Fire 15 percent faster.".to_string(),
        upgrade_type: UpgradeType::FireRate(15),
    });
    v.push(UpgradeCard {
        id: UpgradeId(8),
        name: "Hyper Cognition".to_string(),
        description: "Fire 20 percent faster.".to_string(),
        upgrade_type: UpgradeType::FireRate(20),
    });
    v.push(UpgradeCard {
        id: UpgradeId(4),
        name: "Swift Thoughts".to_string(),
        description: "Bullets travel 20 percent faster.".to_string(),
        upgrade_type: UpgradeType::ProjectileSpeed(20),
    });
    v.push(UpgradeCard {
        id: UpgradeId(9),
        name: "Unraveling Thoughts".to_string(),
        description: "Bullets pierce one more enemy.".to_string(),
        upgrade_type: UpgradeType::ProjectilePiercing(1),
    });
    v.push(UpgradeCard {
        id: UpgradeId(12),
        name: "Persistent Thoughts".to_string(),
        description: "Bullets pierce two more enemies.".to_string(),
        upgrade_type: UpgradeType::ProjectilePiercing(2),
    });
    v.push(UpgradeCard {
        id: UpgradeId(10),
        name: "Forbidden Knowledge".to_string(),
        description: "Gain 20 percent more experience.".to_string(),
        upgrade_type: UpgradeType::XPGainMultiplier(20),
    });
    v.push(UpgradeCard {
        id: UpgradeId(13),
        name: "Cosmic Understanding".to_string(),
        description: "Gain 30 percent more experience.".to_string(),
        upgrade_type: UpgradeType::XPGainMultiplier(30),
    });
    v.push(UpgradeCard {
        id: UpgradeId(11),
        name: "Psychic Grasp".to_string(),
        description: "Pickups are drawn from 25 percent further away.".to_string(),
        upgrade_type: UpgradeType::PickupRadiusIncrease(25),
    });
    v.push(UpgradeCard {
        id: UpgradeId(200),
        name: "Fractured Thoughts".to_string(),
        description: "Fire one additional bullet per volley.".to_string(),
        upgrade_type: UpgradeType::IncreaseProjectileCount(1),
    });
    v.push(UpgradeCard {
        id: UpgradeId(201),
        name: "Thought Barrage".to_string(),
        description: "Fire two additional bullets per volley.".to_string(),
        upgrade_type: UpgradeType::IncreaseProjectileCount(2),
    });
    v.push(UpgradeCard {
        id: UpgradeId(100),
        name: "Unleash Warding Whispers".to_string(),
        description: "Manifest a damaging aura around you.".to_string(),
        upgrade_type: UpgradeType::UnlockAoeAuraWeapon,
    });
    v.push(UpgradeCard {
        id: UpgradeId(101),
        name: "Echoing Whispers".to_string(),
        description: "The aura reaches 20 percent further.".to_string(),
        upgrade_type: UpgradeType::IncreaseAoeAuraRadius(20),
    });
    v.push(UpgradeCard {
        id: UpgradeId(102),
        name: "Maddening Whispers".to_string(),
        description: "The aura deals 2 more damage per tick.".to_string(),
        upgrade_type: UpgradeType::IncreaseAoeAuraDamage(2),
    });
    v.push(UpgradeCard {
        id: UpgradeId(103),
        name: "Frenzied Whispers".to_string(),
        description: "The aura ticks 15 percent faster.".to_string(),
        upgrade_type: UpgradeType::DecreaseAoeAuraTickRate(15),
    });
    v.push(UpgradeCard {
        id: UpgradeId(300),
        name: "Unnatural Vigor".to_string(),
        description: "Regenerate half a point of health per second.".to_string(),
        upgrade_type: UpgradeType::HealthRegeneration(500),
    });
    v.push(UpgradeCard {
        id: UpgradeId(301),
        name: "Bound by Ichor".to_string(),
        description: "Regenerate one point of health per second.".to_string(),
        upgrade_type: UpgradeType::HealthRegeneration(1000),
    });
    v.push(UpgradeCard {
        id: UpgradeId(400),
        name: "Summon Mind Larva".to_string(),
        description: "Conjure two orbiters that strike nearby foes.".to_string(),
        upgrade_type: UpgradeType::UnlockOrbitingSeeds,
    });
    v.push(UpgradeCard {
        id: UpgradeId(401),
        name: "Grow the Swarm".to_string(),
        description: "Add one orbiter.".to_string(),
        upgrade_type: UpgradeType::IncreaseOrbiterCount(1),
    });
    v.push(UpgradeCard {
        id: UpgradeId(402),
        name: "Venomous Larva".to_string(),
        description: "Orbiters deal 3 more damage.".to_string(),
        upgrade_type: UpgradeType::IncreaseOrbiterDamage(3),
    });
    v.push(UpgradeCard {
        id: UpgradeId(403),
        name: "Extended Patrol".to_string(),
        description: "Orbiters patrol 15 units further out.".to_string(),
        upgrade_type: UpgradeType::IncreaseOrbiterRadius(15_000),
    });
    v.push(UpgradeCard {
        id: UpgradeId(404),
        name: "Swifter Larva".to_string(),
        description: "Orbiters sweep faster.".to_string(),
        upgrade_type: UpgradeType::IncreaseOrbiterRotationSpeed(290),
    });
    UpgradePool { available_upgrades: v }
}

} // verus!
