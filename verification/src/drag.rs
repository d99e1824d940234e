use vstd::prelude::*;
use crate::math::mag;
use crate::constants::{COORD_LIMIT, RATE_LIMIT, DRAG_VEL_LIMIT, STEP_TICKS_LIMIT};
use crate::vec2::Vec2i;

verus! {

/// Ceiling of `n / 2`.
pub open spec fn ceil_half(n: int) -> int {
    (n + 1) / 2
}

/// Whether drag brings the velocity to a complete stop within the step.
pub open spec fn drag_clamps(vel: int, drag: int, dt: int) -> bool {
    drag * dt >= mag(vel)
}

/// Velocity after one analytic drag step: it shrinks linearly toward zero
/// and clamps there, never crossing into the opposite sign.
pub open spec fn vel_after_drag(vel: int, drag: int, dt: int) -> int {
    if vel == 0 {
        0
    } else if drag_clamps(vel, drag, dt) {
        0
    } else if vel > 0 {
        vel - drag * dt
    } else {
        vel + drag * dt
    }
}

/// Unsigned distance covered during one analytic drag step.  If the
/// velocity stops inside the step the distance is the triangular-area
/// integral up to the stopping time, `vel^2 / (2 * drag)`; otherwise it is
/// the trapezoidal-area integral over the whole step.
pub open spec fn dist_of_drag(vel: int, drag: int, dt: int) -> int {
    if vel == 0 {
        0
    } else if drag_clamps(vel, drag, dt) {
        (vel * vel) / (2 * drag)
    } else {
        mag(vel) * dt - ceil_half(drag * dt * dt)
    }
}

/// Distance of a drag step, signed by the direction of the velocity.
pub open spec fn signed_dist_of_drag(vel: int, drag: int, dt: int) -> int {
    if vel >= 0 {
        dist_of_drag(vel, drag, dt)
    } else {
        -dist_of_drag(vel, drag, dt)
    }
}

/// The clamped-case distance never exceeds `vel^2 / 2`.
proof fn lemma_clamp_dist_bound(vel: int, drag: int)
    by (nonlinear_arith)
    requires
        drag >= 1,
        vel != 0,
    ensures
        0 <= (vel * vel) / (2 * drag) <= vel * vel,
{
}

/// One drag step never flips the sign of the velocity and never grows its
/// magnitude, whatever the step length.
pub proof fn lemma_drag_preserves_sign(vel: int, drag: int, dt: int)
    requires
        drag >= 0,
        dt >= 0,
    ensures
        vel * vel_after_drag(vel, drag, dt) >= 0,
        mag(vel_after_drag(vel, drag, dt)) <= mag(vel),
{
    let v2 = vel_after_drag(vel, drag, dt);
    if vel == 0 || drag_clamps(vel, drag, dt) {
    } else {
        assert(drag * dt >= 0) by (nonlinear_arith)
            requires
                drag >= 0,
                dt >= 0,
        ;
        assert(vel * v2 >= 0) by (nonlinear_arith)
            requires
                (vel > 0 && v2 >= 0) || (vel < 0 && v2 <= 0),
        ;
    }
}

/// For a fixed velocity and drag, the distance covered by one drag step
/// is monotonically non-decreasing in the step length.
pub proof fn lemma_drag_dist_monotone(vel: int, drag: int, t1: int, t2: int)
    requires
        drag >= 0,
        0 <= t1 <= t2,
    ensures
        dist_of_drag(vel, drag, t1) <= dist_of_drag(vel, drag, t2),
{
    broadcast use vstd::arithmetic::div_mod::lemma_div_is_ordered;
    broadcast use vstd::arithmetic::div_mod::lemma_div_multiples_vanish;

    let vm = mag(vel);
    if vel == 0 {
    } else if drag_clamps(vel, drag, t1) {
        assert(drag * t1 <= drag * t2) by (nonlinear_arith)
            requires
                drag >= 0,
                t1 <= t2,
        ;
        assert(drag_clamps(vel, drag, t2));
    } else if drag_clamps(vel, drag, t2) {
        // the longer step stops the velocity; its distance is the full
        // stopping distance, which the shorter trapezoid never exceeds
        let a = drag * t1 * t1;
        let ch = ceil_half(a);
        let dist1 = vm * t1 - ch;
        assert(drag >= 1) by (nonlinear_arith)
            requires
                drag >= 0,
                drag * t2 >= 1,
        ;
        assert(a >= 0) by (nonlinear_arith)
            requires
                drag >= 0,
                t1 >= 0,
                a == drag * t1 * t1,
        ;
        assert(2 * ch >= a);
        assert(dist1 * (2 * drag) <= vel * vel) by (nonlinear_arith)
            requires
                drag >= 1,
                vm == mag(vel),
                vm >= 1,
                0 <= t1,
                drag * t1 < vm,
                dist1 == vm * t1 - ch,
                a == drag * t1 * t1,
                2 * ch >= a,
        ;
        assert((2 * drag) * dist1 == dist1 * (2 * drag)) by (nonlinear_arith);
        assert(((2 * drag) * dist1) / (2 * drag) == dist1);
        assert(dist1 <= (vel * vel) / (2 * drag));
    } else {
        // both steps end with the velocity still moving
        let a = drag * t1 * t1;
        let b = drag * t2 * t2;
        let cha = ceil_half(a);
        let chb = ceil_half(b);
        if t1 == t2 {
        } else if drag == 0 {
            assert(a == 0 && b == 0) by (nonlinear_arith)
                requires
                    drag == 0,
                    a == drag * t1 * t1,
                    b == drag * t2 * t2,
            ;
            assert(vm * t1 <= vm * t2) by (nonlinear_arith)
                requires
                    vm >= 0,
                    t1 <= t2,
            ;
        } else {
            let d = t2 - t1;
            assert(b - a <= 2 * ((vm - 1) * d)) by (nonlinear_arith)
                requires
                    a == drag * t1 * t1,
                    b == drag * t2 * t2,
                    drag * t1 <= vm - 1,
                    drag * t2 <= vm - 1,
                    0 <= t1 <= t2,
                    d == t2 - t1,
                    drag >= 1,
            ;
            assert(chb - cha <= (b - a) / 2 + 1);
            assert((2 * ((vm - 1) * d)) / 2 == (vm - 1) * d);
            assert((b - a) / 2 <= (vm - 1) * d);
            assert((vm - 1) * d + 1 <= vm * d) by (nonlinear_arith)
                requires
                    d >= 1,
            ;
            assert(vm * t2 - vm * t1 == vm * d) by (nonlinear_arith)
                requires
                    d == t2 - t1,
            ;
        }
    }
}

/// Advance one axis of a free body by `dt` ticks under constant-magnitude
/// deceleration `drag`, returning the new position and velocity.  Positive
/// drag shrinks the speed; it never pushes the velocity past zero.
pub fn drag_step(pos: i64, vel: i64, drag: i64, dt: i64) -> (r: (i64, i64))
    requires
        mag(pos as int) <= COORD_LIMIT,
        mag(vel as int) <= DRAG_VEL_LIMIT,
        0 <= drag <= RATE_LIMIT,
        0 <= dt <= STEP_TICKS_LIMIT,
    ensures
        r.1 == vel_after_drag(vel as int, drag as int, dt as int),
        r.0 == pos + signed_dist_of_drag(vel as int, drag as int, dt as int),
        r.1 * vel >= 0,
        mag(r.1 as int) <= mag(vel as int),
{
    if vel == 0 {
        return (pos, vel);
    }
    proof {
        crate::math::lemma_mul_bound(drag as int, dt as int, RATE_LIMIT as int, STEP_TICKS_LIMIT as int);
    }
    let dv = drag * dt;
    let vmag = if vel >= 0 { vel } else { -vel };
    if dv >= vmag {
        // the velocity stops partway through the step
        proof {
            assert(drag >= 1 && dt >= 1) by (nonlinear_arith)
                requires
                    drag >= 0,
                    dt >= 0,
                    drag * dt >= 1,
            ;
            crate::math::lemma_mul_bound(vmag as int, vmag as int, DRAG_VEL_LIMIT as int, DRAG_VEL_LIMIT as int);
            assert(vmag as int * vmag as int == vel as int * vel as int) by (nonlinear_arith)
                requires
                    vmag as int == mag(vel as int),
            ;
            lemma_clamp_dist_bound(vel as int, drag as int);
        }
        let vv = vmag * vmag;
        let dist = ((vv as u64) / ((2 * drag) as u64)) as i64;
        let traveled = if vel > 0 {
            dist
        } else {
            -dist
        };
        (pos + traveled, 0)
    } else {
        let new_vmag = vmag - dv;
        proof {
            crate::math::lemma_mul_bound(dv as int, dt as int, dv as int, STEP_TICKS_LIMIT as int);
            crate::math::lemma_mul_bound(new_vmag as int, dt as int, DRAG_VEL_LIMIT as int, STEP_TICKS_LIMIT as int);
        }
        let half = (((dv * dt) as u64) / 2u64) as i64;
        let dist = new_vmag * dt + half;
        proof {
            let v = vel as int;
            let d = drag as int;
            let t = dt as int;
            let vm = vmag as int;
            assert((vm - d * t) * t == vm * t - d * t * t) by (nonlinear_arith);
            assert(half == d * t * t - ceil_half(d * t * t));
            assert(dist == mag(v) * t - ceil_half(d * t * t));
        }
        let traveled = if vel > 0 {
            dist
        } else {
            -dist
        };
        let new_vel = if vel > 0 {
            vel - dv
        } else {
            vel + dv
        };
        proof {
            assert(new_vel * vel >= 0) by (nonlinear_arith)
                requires
                    (vel > 0 && new_vel >= 0) || (vel < 0 && new_vel <= 0),
            ;
        }
        (pos + traveled, new_vel)
    }
}

/// Advance both axes of a drag-moving body at once, as the per-tick update
/// of a free-swimming entity does.
pub fn drag_step_2d(pos: Vec2i, vel: Vec2i, drag: Vec2i, dt: i64) -> (r: (Vec2i, Vec2i))
    requires
        mag(pos.x as int) <= COORD_LIMIT,
        mag(pos.y as int) <= COORD_LIMIT,
        mag(vel.x as int) <= DRAG_VEL_LIMIT,
        mag(vel.y as int) <= DRAG_VEL_LIMIT,
        0 <= drag.x <= RATE_LIMIT,
        0 <= drag.y <= RATE_LIMIT,
        0 <= dt <= STEP_TICKS_LIMIT,
    ensures
        r.0.x == pos.x + signed_dist_of_drag(vel.x as int, drag.x as int, dt as int),
        r.0.y == pos.y + signed_dist_of_drag(vel.y as int, drag.y as int, dt as int),
        r.1.x == vel_after_drag(vel.x as int, drag.x as int, dt as int),
        r.1.y == vel_after_drag(vel.y as int, drag.y as int, dt as int),
{
    let (px, vx) = drag_step(pos.x, vel.x, drag.x, dt);
    let (py, vy) = drag_step(pos.y, vel.y, drag.y, dt);
    (Vec2i { x: px, y: py }, Vec2i { x: vx, y: vy })
}

} // verus!
