use vstd::prelude::*;
use crate::vec2::Vec2i;
use crate::math::mag;
use crate::arc::{Trajectory, ReturnTrajectory, ballistic_x, ballistic_y, submerged_y};
use crate::drag::{drag_step_2d, signed_dist_of_drag, vel_after_drag};
use crate::constants::{COORD_LIMIT, RATE_LIMIT, DRAG_VEL_LIMIT, STEP_TICKS_LIMIT, TIME_ABS_LIMIT, WATER_DRAG_X, WATER_DRAG_Y};

verus! {

/// A free-swimming body: a velocity and a per-axis deceleration.
#[derive(Clone, Copy, Debug, PartialEq, Eq, Structural)]
pub struct DragMotion {
    pub vel: Vec2i,
    pub drag: Vec2i,
}

/// The motion representations an entity may hold, one at a time: holding
/// an arc strips the drag velocity and vice versa, so the two can never
/// coexist on one entity.
#[derive(Clone, Copy, Debug, PartialEq, Eq, Structural)]
pub enum MotionState {
    /// Not moving at all.
    Idle,
    /// Free-swimming under drag.
    Swimming(DragMotion),
    /// Flying along a cast arc toward the water.
    Casting(Trajectory),
    /// Flying along an arc toward the catch stack.
    FlyingToStack(Trajectory),
    /// Flying along the two-phase arc back into the water.
    ReturningToWater(ReturnTrajectory),
}

/// The terminal event a motion tick may emit.
#[derive(Clone, Copy, Debug, PartialEq, Eq, Structural)]
pub enum MotionEvent {
    /// Nothing completed this tick.
    Quiet,
    /// A cast arc reached its end point in the water.
    LandedInWater,
    /// A stacking arc reached its end point on the stack.
    LandedInStack,
    /// A return arc reached its lane; the entity swims on with this
    /// velocity.
    ReturnedToWater { exit_vel: Vec2i },
}

/// Well-formedness of a motion state at a given position and instant.
pub open spec fn motion_ok(state: MotionState, pos: Vec2i, now: int) -> bool {
    &&& 0 <= now <= TIME_ABS_LIMIT
    &&& match state {
        MotionState::Idle => true,
        MotionState::Swimming(d) => {
            &&& mag(pos.x as int) <= COORD_LIMIT
            &&& mag(pos.y as int) <= COORD_LIMIT
            &&& mag(d.vel.x as int) <= DRAG_VEL_LIMIT
            &&& mag(d.vel.y as int) <= DRAG_VEL_LIMIT
            &&& 0 <= d.drag.x <= RATE_LIMIT
            &&& 0 <= d.drag.y <= RATE_LIMIT
        },
        MotionState::Casting(t) => t.wf() && t.start_time <= now,
        MotionState::FlyingToStack(t) => t.wf() && t.start_time <= now,
        MotionState::ReturningToWater(rt) => rt.wf() && rt.start_time <= now,
    }
}

/// Advance a one-phase arc to the instant `now`: past its end time the
/// position snaps exactly onto the end point and the flight is over;
/// before that the position follows the ballistic formula.
pub fn advance_trajectory(t: &Trajectory, now: i64) -> (r: (Vec2i, bool))
    requires
        t.wf(),
        t.start_time <= now <= TIME_ABS_LIMIT,
    ensures
        r.1 == (now > t.end_time),
        r.1 ==> r.0 == t.end_pos,
        !r.1 ==> {
            &&& r.0.x == ballistic_x(
                t.start_pos.x as int,
                t.start_vel.x as int,
                now - t.start_time,
            )
            &&& r.0.y == ballistic_y(
                t.start_pos.y as int,
                t.start_vel.y as int,
                t.gravity as int,
                now - t.start_time,
            )
        },
{
    if now > t.end_time {
        (t.end_pos, true)
    } else {
        (t.position_at(now - t.start_time), false)
    }
}

/// Advance a two-phase return arc to the instant `now`: past its end
/// time the position snaps exactly onto the end point; past the water
/// entrance it follows the underwater deceleration from the stored
/// entrance point; before that it follows the ballistic formula.
pub fn advance_return(rt: &ReturnTrajectory, now: i64) -> (r: (Vec2i, bool))
    requires
        rt.wf(),
        rt.start_time <= now <= TIME_ABS_LIMIT,
    ensures
        r.1 == (now > rt.end_time),
        r.1 ==> r.0 == rt.end_pos,
        !r.1 && now > rt.water_entrance_time ==> {
            &&& r.0.x == ballistic_x(
                rt.water_entrance_pos.x as int,
                rt.water_entrance_vel.x as int,
                now - rt.water_entrance_time,
            )
            &&& r.0.y == submerged_y(
                rt.water_entrance_pos.y as int,
                rt.water_entrance_vel.y as int,
                rt.water_drag as int,
                now - rt.water_entrance_time,
            )
        },
        !r.1 && now <= rt.water_entrance_time ==> {
            &&& r.0.x == ballistic_x(
                rt.start_pos.x as int,
                rt.start_vel.x as int,
                now - rt.start_time,
            )
            &&& r.0.y == ballistic_y(
                rt.start_pos.y as int,
                rt.start_vel.y as int,
                rt.gravity as int,
                now - rt.start_time,
            )
        },
{
    if now > rt.end_time {
        (rt.end_pos, true)
    } else if now > rt.water_entrance_time {
        (rt.position_underwater(now - rt.water_entrance_time), false)
    } else {
        (rt.position_in_air(now - rt.start_time), false)
    }
}

/// One motion tick for an entity: advance whatever representation it
/// holds, transition out of a finished arc, and report the terminal
/// event.  A finished return arc hands the entity back to free swimming
/// with its horizontal exit velocity and the water's drag.
pub fn advance_motion(state: MotionState, pos: Vec2i, now: i64, dt: i64) -> (r: (
    MotionState,
    Vec2i,
    MotionEvent,
))
    requires
        motion_ok(state, pos, now as int),
        0 <= dt <= STEP_TICKS_LIMIT,
    ensures
        match state {
            MotionState::Idle => r == (state, pos, MotionEvent::Quiet),
            MotionState::Swimming(d) => {
                &&& r.1.x == pos.x + signed_dist_of_drag(
                    d.vel.x as int,
                    d.drag.x as int,
                    dt as int,
                )
                &&& r.1.y == pos.y + signed_dist_of_drag(
                    d.vel.y as int,
                    d.drag.y as int,
                    dt as int,
                )
                &&& r.0 matches MotionState::Swimming(d2) && d2.drag == d.drag && d2.vel.x as int
                    == vel_after_drag(d.vel.x as int, d.drag.x as int, dt as int) && d2.vel.y
                    as int == vel_after_drag(d.vel.y as int, d.drag.y as int, dt as int)
                &&& r.2 == MotionEvent::Quiet
            },
            MotionState::Casting(t) => {
                if now > t.end_time {
                    r == (MotionState::Idle, t.end_pos, MotionEvent::LandedInWater)
                } else {
                    r.0 == state && r.2 == MotionEvent::Quiet && r.1.x == ballistic_x(
                        t.start_pos.x as int,
                        t.start_vel.x as int,
                        now - t.start_time,
                    ) && r.1.y == ballistic_y(
                        t.start_pos.y as int,
                        t.start_vel.y as int,
                        t.gravity as int,
                        now - t.start_time,
                    )
                }
            },
            MotionState::FlyingToStack(t) => {
                if now > t.end_time {
                    r == (MotionState::Idle, t.end_pos, MotionEvent::LandedInStack)
                } else {
                    r.0 == state && r.2 == MotionEvent::Quiet && r.1.x == ballistic_x(
                        t.start_pos.x as int,
                        t.start_vel.x as int,
                        now - t.start_time,
                    ) && r.1.y == ballistic_y(
                        t.start_pos.y as int,
                        t.start_vel.y as int,
                        t.gravity as int,
                        now - t.start_time,
                    )
                }
            },
            MotionState::ReturningToWater(rt) => {
                if now > rt.end_time {
                    &&& r.1 == rt.end_pos
                    &&& r.0 matches MotionState::Swimming(d2) && d2.vel.x == rt.start_vel.x
                        && d2.vel.y == 0 && d2.drag.x == WATER_DRAG_X && d2.drag.y == WATER_DRAG_Y
                    &&& r.2 == (MotionEvent::ReturnedToWater {
                        exit_vel: Vec2i { x: rt.start_vel.x, y: 0 },
                    })
                } else {
                    &&& r.0 == state
                    &&& r.2 == MotionEvent::Quiet
                    &&& now > rt.water_entrance_time ==> r.1.x == ballistic_x(
                        rt.water_entrance_pos.x as int,
                        rt.water_entrance_vel.x as int,
                        now - rt.water_entrance_time,
                    ) && r.1.y == submerged_y(
                        rt.water_entrance_pos.y as int,
                        rt.water_entrance_vel.y as int,
                        rt.water_drag as int,
                        now - rt.water_entrance_time,
                    )
                    &&& now <= rt.water_entrance_time ==> r.1.x == ballistic_x(
                        rt.start_pos.x as int,
                        rt.start_vel.x as int,
                        now - rt.start_time,
                    ) && r.1.y == ballistic_y(
                        rt.start_pos.y as int,
                        rt.start_vel.y as int,
                        rt.gravity as int,
                        now - rt.start_time,
                    )
                }
            },
        },
{
    match state {
        MotionState::Idle => (state, pos, MotionEvent::Quiet),
        MotionState::Swimming(d) => {
            let (p2, v2) = drag_step_2d(pos, d.vel, d.drag, dt);
            (
                MotionState::Swimming(DragMotion { vel: v2, drag: d.drag }),
                p2,
                MotionEvent::Quiet,
            )
        },
        MotionState::Casting(t) => {
            let (p2, done) = advance_trajectory(&t, now);
            if done {
                (MotionState::Idle, p2, MotionEvent::LandedInWater)
            } else {
                (state, p2, MotionEvent::Quiet)
            }
        },
        MotionState::FlyingToStack(t) => {
            let (p2, done) = advance_trajectory(&t, now);
            if done {
                (MotionState::Idle, p2, MotionEvent::LandedInStack)
            } else {
                (state, p2, MotionEvent::Quiet)
            }
        },
        MotionState::ReturningToWater(rt) => {
            let (p2, done) = advance_return(&rt, now);
            if done {
                let exit_vel = Vec2i { x: rt.start_vel.x, y: 0 };
                (
                    MotionState::Swimming(
                        DragMotion {
                            vel: exit_vel,
                            drag: Vec2i { x: WATER_DRAG_X, y: WATER_DRAG_Y },
                        },
                    ),
                    p2,
                    MotionEvent::ReturnedToWater { exit_vel },
                )
            } else {
                (state, p2, MotionEvent::Quiet)
            }
        },
    }
}

} // verus!
