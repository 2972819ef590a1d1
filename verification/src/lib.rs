//! Simulation core of a small shooting gallery: windmill targets that lose
//! their fins one hit at a time, projectiles that fly in straight lines, and
//! a score that counts destroyed windmills.
//!
//! All quantities are integers. Positions are counted in millionths of a
//! world unit, directions in thousandths of a unit vector, time in
//! milliseconds and angles in microradians, so that every rule of the
//! simulation can be stated exactly. Whoever shows the world converts at the
//! edge, and turns a phase into a place on the circle of a fin.

pub mod animator;
pub mod collision;
pub mod geometry;
pub mod input;
pub mod laws;
pub mod windmill;
pub mod world;
