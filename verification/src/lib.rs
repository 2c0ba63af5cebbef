//! Rules of a small arena simulation: a planet, asteroids that fall towards it,
//! ships that chase them, and a bag of dice won and lost along the way.
//!
//! The crate decides; a host performs. Each step the host hands over what it
//! knows (elapsed time, where every body stands, which bodies touched, where the
//! pointer clicked) and gets back what to do (spawn, steer, push, despawn) as
//! plain values. Positions are integers in world units, identifiers are `u64`.

pub mod bag;
pub mod collision;
pub mod config;
pub mod dice;
pub mod geometry;
pub mod movement;
pub mod pickup;
pub mod random;
pub mod scene;
pub mod spawn;
pub mod targeting;
