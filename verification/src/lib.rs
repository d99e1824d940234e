//! Kinematics and stack-consistency engine for a casting/reeling fishing
//! simulation.
//!
//! The engine works on fixed-point integer scalars: lengths and velocities
//! are `i64` values in an arbitrary sub-pixel unit chosen by the caller,
//! times are `i64` ticks.  Every quantity a trajectory needs is derived in
//! closed form (no per-step numerical integration), and the holding stack
//! keeps its ordering invariants under cascading eviction and compaction.

pub mod constants;
pub mod vec2;
pub mod math;
pub mod drag;
pub mod arc;
pub mod motion;
pub mod stack;
pub mod hook;
pub mod spawn;
pub mod session;
