//! Deterministic simulation core of a single-character 2D side-scroller.
//!
//! The library turns per-tick key state into character motion, tests the
//! character's bounding box against static terrain, classifies the contact
//! side, derives a locomotion state and facing from motion and contact,
//! gates state changes behind an attack cooldown, spawns projectiles on
//! attack triggers, and drives repeating frame animations.
//!
//! All quantities are fixed-point integers so that every tick is exact and
//! reproducible:
//! - positions and box extents are in micro-units (1/1_000_000 world unit),
//! - velocities are in milli-units per second (1/1_000 world unit per second),
//! - times are in milliseconds.
//!
//! With these scales, advancing a position by `velocity * dt_ms` is exact:
//! milli-units/s times milliseconds gives micro-units.

pub mod animation;
pub mod collision;
pub mod cooldown;
pub mod geometry;
pub mod input;
pub mod locomotion;
pub mod motion;
pub mod params;
pub mod projectile;
pub mod terrain;
pub mod world;
