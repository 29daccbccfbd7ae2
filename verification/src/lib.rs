//! A swarm of fading dots drifting across a rectangular viewport.
//!
//! All quantities are integers. Positions and velocities count sub-pixel
//! units (see [`units`]), so every update is exact and total.

pub mod color;
pub mod particle;
pub mod random;
pub mod units;
pub mod velocity;
pub mod world;
