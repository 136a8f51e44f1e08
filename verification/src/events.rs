//! Events the core emits toward the presentation layer.
//!
//! The core pushes a discrete value per notable occurrence; a collaborator
//! outside the core drains the queues once per tick and owns playback and
//! rendering.  The core never blocks on them.

use vstd::prelude::*;
use crate::geom::Vec2I;

verus! {

/// One sound event per notable occurrence.
#[derive(Clone, Copy, PartialEq, Eq, Structural, Debug)]
pub enum SoundEffect {
    PlayerShoot,
    EnemyHit,
    EnemyDeath,
    PlayerHit,
    LevelUp,
    XpCollect,
    GameOver,
    UpgradeChosen,
    EnemyShoot,
}

/// A floating damage-text request: world position, amount, and the session
/// time at which it was emitted.
#[derive(Clone, Copy, PartialEq, Eq, Structural, Debug)]
pub struct DamageText {
    pub pos: Vec2I,
    pub amount: i32,
    pub timestamp_ms: u64,
}

} // verus!
