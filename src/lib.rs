//! Fixed-point kinematics for a small 2D movement demo: an entity table and
//! the per-frame rules that steer, slow, move and display its entities.
//!
//! Lengths are integers in a unit that the caller picks (a fraction of a
//! pixel), time is counted in microseconds, and every rule is exact integer
//! arithmetic with a stated rounding.
pub mod arith;
pub mod vector;
pub mod input;
pub mod motion;
pub mod world;
pub mod laws;
