//! Core simulation library for a top-down survival action game.
//!
//! The library models one discrete simulation step ("tick") per rendered
//! frame: countdown timers, circular collision tests, projectile piercing
//! and chaining, area effects, orbiters, damage resolution and the
//! experience / game-phase state machine.  All world quantities are held
//! as integers: positions and radii in milli-units (one thousandth of a
//! world unit), times in milliseconds, rates in percent or per-mille.

pub mod bullet;
pub mod enemy;
pub mod events;
pub mod game;
pub mod geom;
pub mod player;
pub mod resolve;
pub mod rng;
pub mod sim;
pub mod skills;
pub mod timer;
pub mod upgrades;
pub mod weapons;
