use vstd::prelude::*;

verus! {

// Machine limits for the fixed-point engine.  Solver inputs stay inside
// these caps so that every intermediate product of the closed-form algebra
// fits in an `i64`.

/// Cap on the magnitude of coordinates handed to the arc solvers.
pub const POS_LIMIT: i64 = 0x1_0000_0000;

/// Cap on gravity and drag magnitudes (units per tick squared).
pub const RATE_LIMIT: i64 = 0x10_0000;

/// Cap on the water-entry speed of a return arc (units per tick).
pub const VEL_LIMIT: i64 = 0x800_0000;

/// Cap on the duration of a solved arc (ticks).
pub const TIME_LIMIT: i64 = 0x2000_0000;

/// Cap on absolute simulation times (ticks since start).
pub const TIME_ABS_LIMIT: i64 = 0x100_0000_0000;

/// Latest instant at which a new arc may be started.
pub const NOW_LIMIT: i64 = TIME_ABS_LIMIT - TIME_LIMIT;

/// Cap on the magnitude of coordinates stored in a trajectory record.
pub const COORD_LIMIT: i64 = 0x10_0000_0000;

/// Cap on the products `velocity * duration` and `gravity * duration^2`
/// of a well-formed trajectory.
pub const PROD_LIMIT: i64 = 0x400_0000_0000_0000;

/// Cap on the capacity of a catch stack.
pub const STACK_CAP_LIMIT: usize = 0x1_0000;

/// Cap on the velocity handed to the drag integrator.
pub const DRAG_VEL_LIMIT: i64 = 0x4000_0000;

/// Cap on the number of ticks a single drag step may span.
pub const STEP_TICKS_LIMIT: i64 = 0x10_0000;

// Game configuration, in engine units: one length unit is a millionth of
// a pixel and one tick is a millisecond, so accelerations keep the same
// numeric value as in pixels per second squared.

/// Downward acceleration of an airborne body.
pub const GRAVITY: i64 = 6000;

/// Vertical deceleration of a body moving through water.
pub const WATER_DRAG_Y: i64 = 12000;

/// Horizontal deceleration of a body moving through water.
pub const WATER_DRAG_X: i64 = 50;

/// Horizontal speed a fish darts with (units per tick).
pub const FISH_VELOCITY: i64 = 500_000;

/// Number of fish in a level, and the capacity of the catch stack.
pub const FISH_PER_LEVEL: usize = 10;

/// Reaction window for a critical catch (ticks).
pub const CRITICAL_TIME: i64 = 70;

/// Vertical spacing between two occupied stack slots.
pub const FISH_STACK_HEIGHT: i64 = 50_000_000;

/// A hook within this distance of a fish mouth gets a bite.
pub const BITE_DISTANCE: i64 = 50_000_000;

/// Fixed apex height used when casting the hook or lobbing a fish onto
/// the stack.
pub const ARC_APEX_Y: i64 = 900_000_000;

/// Speed at which a hooked catch is reeled toward the surface.
pub const REEL_SPEED: i64 = 600_000;

/// Speed at which the player can steer the hook vertically.
pub const HOOK_MOVE_SPEED: i64 = 300_000;

/// Centre of the water volume.
pub const WATER_POS_X: i64 = 377_000_000;
/// Centre of the water volume.
pub const WATER_POS_Y: i64 = -250_000_000;
/// Extent of the water volume.
pub const WATER_SIZE_X: i64 = 1_450_000_000;
/// Extent of the water volume.
pub const WATER_SIZE_Y: i64 = 1_200_000_000;

/// Where a cast hook lands.
pub const CAST_TARGET_X: i64 = 300_000_000;
/// Where a cast hook lands.
pub const CAST_TARGET_Y: i64 = 220_000_000;

/// Base of the catch stack.
pub const STACK_POS_X: i64 = -1_000_000_000;
/// Base of the catch stack.
pub const STACK_POS_Y: i64 = 435_000_000;

} // verus!
