use vstd::prelude::*;
use crate::vec2::Vec2i;
use crate::math::mag;
use crate::arc::{Trajectory, ReturnTrajectory, simple_arc_ok, return_arc_ok, return_apex, solve_arc_trajectory, solve_return_arc, simple_arc_duration, simple_arc_rise, return_total_ticks, return_entry_speed};
use crate::math::div_tz;
use crate::constants::{GRAVITY, WATER_DRAG_Y, VEL_LIMIT, CRITICAL_TIME, CAST_TARGET_X, CAST_TARGET_Y, ARC_APEX_Y, REEL_SPEED, HOOK_MOVE_SPEED, WATER_POS_X, WATER_POS_Y, WATER_SIZE_X, WATER_SIZE_Y, FISH_STACK_HEIGHT, BITE_DISTANCE, STEP_TICKS_LIMIT, NOW_LIMIT, TIME_ABS_LIMIT, POS_LIMIT, STACK_CAP_LIMIT};

verus! {

/// The command-acceptance state of the fishing line: each command is
/// valid in exactly one phase, so a trajectory can never be issued twice.
#[derive(Clone, Copy, Debug, PartialEq, Eq, Structural)]
pub enum HookPhase {
    /// Hanging at the rod, ready to be cast.
    Waiting,
    /// Flying along the cast arc.
    Casting,
    /// In the water, steerable.
    InWater,
    /// Next to a fish mouth; a catch command is accepted now.
    NearFish,
    /// Being reeled back up to the surface.
    Reeling,
}

/// A catch happens the instant the command arrives; it is critical when
/// the reaction came within the critical window of the bite.
pub fn catch_is_critical(now: i64, hook_time: i64) -> (r: bool)
    requires
        0 <= hook_time <= now <= TIME_ABS_LIMIT,
    ensures
        r == (now - hook_time < CRITICAL_TIME),
{
    now - hook_time < CRITICAL_TIME
}

/// A cast command: accepted only while the hook waits at the rod and no
/// popup blocks input.  Returns the new phase and whether the cast
/// happened.
pub fn try_cast(phase: HookPhase, popup_active: bool) -> (r: (HookPhase, bool))
    ensures
        r.1 == (phase is Waiting && !popup_active),
        r.1 ==> r.0 is Casting,
        !r.1 ==> r.0 == phase,
{
    if matches!(phase, HookPhase::Waiting) && !popup_active {
        (HookPhase::Casting, true)
    } else {
        (phase, false)
    }
}

/// The cast arc lands in the water, so it ends below the hook phase's
/// next decision point.
pub fn on_hook_landed(phase: HookPhase) -> (r: HookPhase)
    ensures
        phase is Casting ==> r is InWater,
        !(phase is Casting) ==> r == phase,
{
    if matches!(phase, HookPhase::Casting) {
        HookPhase::InWater
    } else {
        phase
    }
}

/// A fish bit the hook: the hook stops moving and a catch is possible.
pub fn on_bite(phase: HookPhase) -> (r: HookPhase)
    ensures
        phase is InWater ==> r is NearFish,
        !(phase is InWater) ==> r == phase,
{
    if matches!(phase, HookPhase::InWater) {
        HookPhase::NearFish
    } else {
        phase
    }
}

/// A catch command: accepted only next to a fish and with no popup
/// active.  A critical catch snaps the hook straight back to the rod;
/// an ordinary one starts reeling.
pub fn try_catch(phase: HookPhase, popup_active: bool, now: i64, hook_time: i64) -> (r: (
    HookPhase,
    bool,
    bool,
))
    requires
        0 <= hook_time <= now <= TIME_ABS_LIMIT,
    ensures
        r.1 == (phase is NearFish && !popup_active),
        r.1 && r.2 ==> r.0 is Waiting,
        r.1 && !r.2 ==> r.0 is Reeling,
        !r.1 ==> r.0 == phase,
        r.1 ==> r.2 == (now - hook_time < CRITICAL_TIME),
{
    if matches!(phase, HookPhase::NearFish) && !popup_active {
        let critical = catch_is_critical(now, hook_time);
        if critical {
            (HookPhase::Waiting, true, true)
        } else {
            (HookPhase::Reeling, true, false)
        }
    } else {
        (phase, false, false)
    }
}

/// The reeled catch broke the surface: the hook is ready again.
pub fn on_reeled_to_surface(phase: HookPhase) -> (r: HookPhase)
    ensures
        phase is Reeling ==> r is Waiting,
        !(phase is Reeling) ==> r == phase,
{
    if matches!(phase, HookPhase::Reeling) {
        HookPhase::Waiting
    } else {
        phase
    }
}

/// A level reset puts the hook back at the rod whatever it was doing.
pub fn on_level_reset(phase: HookPhase) -> (r: HookPhase)
    ensures
        r is Waiting,
{
    let _ = phase;
    HookPhase::Waiting
}

/// Solve the cast arc from the rod tip to the fixed target in the water,
/// under the standard gravity and apex height.
pub fn cast_arc(line_start: Vec2i, now: i64) -> (t: Trajectory)
    requires
        simple_arc_ok(
            line_start,
            Vec2i { x: CAST_TARGET_X, y: CAST_TARGET_Y },
            GRAVITY as int,
            ARC_APEX_Y as int,
        ),
        0 <= now <= NOW_LIMIT,
    ensures
        t.wf(),
        t.start_pos == line_start,
        t.end_pos == (Vec2i { x: CAST_TARGET_X, y: CAST_TARGET_Y }),
        t.gravity == GRAVITY,
        t.start_time == now,
        t.end_time == now + simple_arc_duration(
            line_start,
            Vec2i { x: CAST_TARGET_X, y: CAST_TARGET_Y },
            GRAVITY as int,
            ARC_APEX_Y as int,
        ),
        t.start_vel.y == GRAVITY * simple_arc_rise(line_start, GRAVITY as int, ARC_APEX_Y as int),
        t.start_vel.x == div_tz(CAST_TARGET_X - line_start.x, t.duration()),
{
    solve_arc_trajectory(
        line_start,
        Vec2i { x: CAST_TARGET_X, y: CAST_TARGET_Y },
        GRAVITY,
        ARC_APEX_Y,
        now,
    )
}

/// The slot a reeled-up catch must fly to: the stack base raised by one
/// spacing per occupant already stacked.
pub fn stack_target(stack_base: Vec2i, total_stacked: usize) -> (p: Vec2i)
    requires
        mag(stack_base.x as int) <= POS_LIMIT,
        mag(stack_base.y as int) <= POS_LIMIT,
        total_stacked <= STACK_CAP_LIMIT,
    ensures
        p.x == stack_base.x,
        p.y == stack_base.y + total_stacked * FISH_STACK_HEIGHT,
{
    let dy = (total_stacked as i64) * FISH_STACK_HEIGHT;
    Vec2i { x: stack_base.x, y: stack_base.y + dy }
}

/// Solve the arc that lobs a reeled-up catch from the surface onto its
/// stack slot.
pub fn send_to_stack(fish_pos: Vec2i, slot_pos: Vec2i, now: i64) -> (t: Trajectory)
    requires
        simple_arc_ok(fish_pos, slot_pos, GRAVITY as int, ARC_APEX_Y as int),
        0 <= now <= NOW_LIMIT,
    ensures
        t.wf(),
        t.start_pos == fish_pos,
        t.end_pos == slot_pos,
        t.gravity == GRAVITY,
        t.start_time == now,
        t.end_time == now + simple_arc_duration(
            fish_pos,
            slot_pos,
            GRAVITY as int,
            ARC_APEX_Y as int,
        ),
        t.start_vel.y == GRAVITY * simple_arc_rise(fish_pos, GRAVITY as int, ARC_APEX_Y as int),
        t.start_vel.x == div_tz(slot_pos.x - fish_pos.x, t.duration()),
{
    solve_arc_trajectory(fish_pos, slot_pos, GRAVITY, ARC_APEX_Y, now)
}

/// Where on the water surface band a knocked-out entity re-enters: the
/// deeper its origin lane, the further across the (slightly shrunken)
/// water the entry point sits.
pub open spec fn spec_return_position(lane_y: int) -> Vec2i {
    let water_top = WATER_POS_Y as int + WATER_SIZE_Y as int / 2;
    let min_left = WATER_POS_X as int - (WATER_SIZE_X as int / 2) * 8 / 10;
    let del_y = water_top - lane_y;
    let del_x = WATER_SIZE_X as int * 8 / 10 * del_y / (WATER_SIZE_Y as int);
    Vec2i { x: (min_left + del_x) as i64, y: lane_y as i64 }
}

/// Compute the re-entry point for an origin lane.
pub fn calculate_return_position(lane_y: i64) -> (p: Vec2i)
    requires
        mag(lane_y as int) <= POS_LIMIT,
        lane_y <= WATER_POS_Y + WATER_SIZE_Y / 2,
    ensures
        p == spec_return_position(lane_y as int),
        p.y == lane_y,
{
    let water_top = WATER_POS_Y + WATER_SIZE_Y / 2;
    let min_left = WATER_POS_X - (WATER_SIZE_X / 2) * 8 / 10;
    let del_y = water_top - lane_y;
    let shrunk = WATER_SIZE_X * 8 / 10;
    proof {
        crate::math::lemma_mul_bound(shrunk as int, del_y as int, 1_160_000_000, 5_000_000_000);
        vstd::arithmetic::div_mod::lemma_div_pos_is_pos(
            shrunk as int * del_y as int,
            WATER_SIZE_Y as int,
        );
        vstd::arithmetic::div_mod::lemma_div_nonincreasing(
            shrunk as int * del_y as int,
            WATER_SIZE_Y as int,
        );
    }
    let del_x = (((shrunk * del_y) as u64) / (WATER_SIZE_Y as u64)) as i64;
    Vec2i { x: min_left + del_x, y: lane_y }
}

/// Solve the return arc for an entity knocked off the stack: from its
/// stack position, over the apex, through the surface, down to the
/// re-entry point of its origin lane.
pub fn knock_out_return_arc(stack_pos: Vec2i, lane_y: i64, now: i64) -> (rt: ReturnTrajectory)
    requires
        mag(lane_y as int) <= POS_LIMIT,
        lane_y <= WATER_POS_Y + WATER_SIZE_Y / 2,
        return_arc_ok(
            stack_pos,
            spec_return_position(lane_y as int),
            WATER_POS_Y + WATER_SIZE_Y / 2,
            GRAVITY as int,
            WATER_DRAG_Y as int,
        ),
        0 <= now <= NOW_LIMIT,
    ensures
        rt.wf(),
        rt.start_pos == stack_pos,
        rt.end_pos == spec_return_position(lane_y as int),
        rt.end_pos.y == lane_y,
        rt.gravity == GRAVITY,
        rt.water_drag == WATER_DRAG_Y,
        rt.start_time == now,
        rt.water_entrance_pos.y == WATER_POS_Y + WATER_SIZE_Y / 2,
        rt.water_entrance_vel.y == -return_entry_speed(
            (WATER_POS_Y + WATER_SIZE_Y / 2) as int,
            rt.end_pos.y as int,
            WATER_DRAG_Y as int,
        ),
        rt.end_time == now + return_total_ticks(
            stack_pos.y as int,
            (WATER_POS_Y + WATER_SIZE_Y / 2) as int,
            rt.end_pos.y as int,
            GRAVITY as int,
            WATER_DRAG_Y as int,
        ),
{
    let end = calculate_return_position(lane_y);
    solve_return_arc(stack_pos, end, WATER_POS_Y + WATER_SIZE_Y / 2, GRAVITY, WATER_DRAG_Y, now)
}

/// Whether a knocked-out occupant's return flight can be solved at all:
/// the instant and both points within the machine caps, and the backward
/// derivation well-defined from its stack slot to its lane.
pub open spec fn knock_out_ok(stack_pos: Vec2i, lane_y: int, now: int) -> bool {
    let wtop = WATER_POS_Y as int + WATER_SIZE_Y as int / 2;
    &&& 0 <= now <= NOW_LIMIT
    &&& mag(stack_pos.x as int) <= POS_LIMIT
    &&& mag(stack_pos.y as int) <= POS_LIMIT
    &&& mag(lane_y) <= POS_LIMIT
    &&& lane_y <= wtop
    &&& return_arc_ok(
        stack_pos,
        spec_return_position(lane_y),
        wtop,
        GRAVITY as int,
        WATER_DRAG_Y as int,
    )
}

/// What a solved knock-out return flight looks like: well-formed, from
/// the stack slot, down onto the re-entry point of the lane, under the
/// standard gravity and water drag.
pub open spec fn knock_out_arc_fields(
    rt: ReturnTrajectory,
    stack_pos: Vec2i,
    lane_y: int,
    now: int,
) -> bool {
    &&& rt.wf()
    &&& rt.start_pos == stack_pos
    &&& rt.end_pos == spec_return_position(lane_y)
    &&& rt.end_pos.y == lane_y
    &&& rt.start_time == now
    &&& rt.gravity == GRAVITY
    &&& rt.water_drag == WATER_DRAG_Y
    &&& rt.water_entrance_pos.y == WATER_POS_Y as int + WATER_SIZE_Y as int / 2
}

/// Solve the knock-out return arc after checking every machine
/// precondition, or report that the geometry admits none: a lane out of
/// range, an underwater leg too shallow or too fast, or a stack slot
/// above the implied apex.
pub fn try_knock_out_return_arc(stack_pos: Vec2i, lane_y: i64, now: i64) -> (r: Option<
    ReturnTrajectory,
>)
    ensures
        r is Some <==> knock_out_ok(stack_pos, lane_y as int, now as int),
        r matches Some(rt) ==> knock_out_arc_fields(rt, stack_pos, lane_y as int, now as int),
{
    let wtop = WATER_POS_Y + WATER_SIZE_Y / 2;
    if !(0 <= now && now <= NOW_LIMIT) {
        return None;
    }
    if !(-POS_LIMIT <= stack_pos.x && stack_pos.x <= POS_LIMIT) {
        return None;
    }
    if !(-POS_LIMIT <= stack_pos.y && stack_pos.y <= POS_LIMIT) {
        return None;
    }
    if !(-POS_LIMIT <= lane_y && lane_y <= wtop) {
        return None;
    }
    let end = calculate_return_position(lane_y);
    if !(-POS_LIMIT <= end.x && end.x <= POS_LIMIT) {
        return None;
    }
    if !(end.y < wtop) {
        return None;
    }
    let depth2 = 2 * (wtop - end.y);
    if !(depth2 >= WATER_DRAG_Y) {
        return None;
    }
    let q_cap = ((((VEL_LIMIT as u64) * (VEL_LIMIT as u64))) / (WATER_DRAG_Y as u64)) as i64;
    proof {
        crate::math::lemma_div_bracket(VEL_LIMIT as int * VEL_LIMIT as int, WATER_DRAG_Y as int);
    }
    if !(depth2 <= q_cap) {
        proof {
            // beyond the quotient cap, the entry-speed product breaks
            // its cap too
            assert(depth2 * WATER_DRAG_Y > VEL_LIMIT * VEL_LIMIT) by (nonlinear_arith)
                requires
                    WATER_DRAG_Y >= 1,
                    depth2 >= q_cap + 1,
                    (VEL_LIMIT as int) * (VEL_LIMIT as int) < WATER_DRAG_Y * q_cap + WATER_DRAG_Y,
            ;
        }
        return None;
    }
    proof {
        assert(depth2 * WATER_DRAG_Y <= VEL_LIMIT * VEL_LIMIT) by (nonlinear_arith)
            requires
                WATER_DRAG_Y >= 1,
                0 <= depth2 <= q_cap,
                WATER_DRAG_Y * q_cap <= (VEL_LIMIT as int) * (VEL_LIMIT as int),
        ;
        crate::math::lemma_div_bracket(depth2 as int, WATER_DRAG_Y as int);
    }
    // the implied apex, step by step as the solver derives it
    let q_w = ((depth2 as u64) / (WATER_DRAG_Y as u64)) as i64;
    let t_w = crate::math::isqrt(q_w);
    proof {
        crate::math::lemma_mul_bound(
            WATER_DRAG_Y as int,
            t_w as int,
            WATER_DRAG_Y as int,
            0x1_0000_0000,
        );
    }
    let ve = WATER_DRAG_Y * t_w;
    proof {
        assert(ve * ve <= VEL_LIMIT * VEL_LIMIT) by (nonlinear_arith)
            requires
                ve == WATER_DRAG_Y * t_w,
                t_w as int * t_w as int <= q_w,
                WATER_DRAG_Y as int * q_w <= depth2,
                depth2 * WATER_DRAG_Y <= VEL_LIMIT * VEL_LIMIT,
                WATER_DRAG_Y >= 1,
                t_w >= 0,
                q_w >= 0,
        ;
        assert(0 <= ve <= VEL_LIMIT) by (nonlinear_arith)
            requires
                ve == WATER_DRAG_Y * t_w,
                WATER_DRAG_Y >= 1,
                t_w >= 0,
                ve * ve <= VEL_LIMIT * VEL_LIMIT,
                VEL_LIMIT >= 1,
        ;
    }
    let t_d = ((ve as u64) / (GRAVITY as u64)) as i64;
    proof {
        vstd::arithmetic::div_mod::lemma_div_nonincreasing(ve as int, GRAVITY as int);
        vstd::arithmetic::div_mod::lemma_div_pos_is_pos(ve as int, GRAVITY as int);
        crate::math::lemma_div_bracket(ve as int, GRAVITY as int);
    }
    let gtd = GRAVITY * t_d;
    proof {
        crate::math::lemma_mul_bound(gtd as int, t_d as int, VEL_LIMIT as int, VEL_LIMIT as int);
    }
    let gtdtd = gtd * t_d;
    let ad2 = ((gtdtd as u64) / 2u64) as i64;
    let apex = wtop + ad2;
    proof {
        assert(apex == return_apex(
            wtop as int,
            end.y as int,
            GRAVITY as int,
            WATER_DRAG_Y as int,
        ));
    }
    if !(2 * (apex - stack_pos.y) >= GRAVITY) {
        return None;
    }
    Some(solve_return_arc(stack_pos, end, wtop, GRAVITY, WATER_DRAG_Y, now))
}

/// One reeling step: the catch moves straight up and stops exactly at
/// the surface, reporting the instant it gets there.
pub fn reel_step(y: i64, dt: i64) -> (r: (i64, bool))
    requires
        mag(y as int) <= POS_LIMIT,
        0 <= dt <= STEP_TICKS_LIMIT,
    ensures
        ({
            let surface = WATER_POS_Y + WATER_SIZE_Y / 2;
            let lifted = y + REEL_SPEED * dt;
            &&& r.1 == (lifted > surface)
            &&& r.1 ==> r.0 == surface
            &&& !r.1 ==> r.0 == lifted
        }),
{
    let surface = WATER_POS_Y + WATER_SIZE_Y / 2;
    let lifted = y + REEL_SPEED * dt;
    if lifted > surface {
        (surface, true)
    } else {
        (lifted, false)
    }
}

/// One steering step for the hook in the water: the held keys give a
/// direction, and the hook stays clamped inside the steerable band of
/// the water.
pub fn steer_hook(y: i64, up_held: bool, down_held: bool, dt: i64) -> (r: i64)
    requires
        mag(y as int) <= POS_LIMIT,
        0 <= dt <= STEP_TICKS_LIMIT,
    ensures
        ({
            let top = WATER_POS_Y + WATER_SIZE_Y / 2 - 100_000_000;
            let bottom = WATER_POS_Y - WATER_SIZE_Y / 2;
            let dir: int = (if up_held {
                1int
            } else {
                0int
            }) + (if down_held {
                -1int
            } else {
                0int
            });
            let moved = y + dir * (HOOK_MOVE_SPEED * dt);
            &&& moved < bottom ==> r == bottom
            &&& moved > top ==> r == top
            &&& bottom <= moved <= top ==> r == moved
        }),
{
    let top = WATER_POS_Y + WATER_SIZE_Y / 2 - 100_000_000;
    let bottom = WATER_POS_Y - WATER_SIZE_Y / 2;
    let step = HOOK_MOVE_SPEED * dt;
    proof {
        let s = HOOK_MOVE_SPEED as int * dt as int;
        assert(1 * s == s && (-1) * s == -s && 0 * s == 0) by (nonlinear_arith);
    }
    let moved = if up_held && !down_held {
        y + step
    } else if down_held && !up_held {
        y - step
    } else {
        y
    };
    if moved < bottom {
        bottom
    } else if moved > top {
        top
    } else {
        moved
    }
}

/// Whether the hook sits within biting distance of a fish mouth.  The
/// mouth offset flips with the fish's facing; the comparison squares
/// both sides, which is exact.
pub fn bite_in_range(
    hook_pos: Vec2i,
    fish_pos: Vec2i,
    facing_right: bool,
    mouth_offset: Vec2i,
) -> (r: bool)
    requires
        mag(hook_pos.x as int) <= POS_LIMIT,
        mag(hook_pos.y as int) <= POS_LIMIT,
        mag(fish_pos.x as int) <= POS_LIMIT,
        mag(fish_pos.y as int) <= POS_LIMIT,
        0 <= mouth_offset.x <= POS_LIMIT,
        0 <= mouth_offset.y <= POS_LIMIT,
    ensures
        ({
            let ox: int = if facing_right {
                mouth_offset.x as int
            } else {
                -(mouth_offset.x as int)
            };
            let dx = hook_pos.x + ox - fish_pos.x;
            let dy = hook_pos.y + mouth_offset.y - fish_pos.y;
            r == (dx * dx + dy * dy < BITE_DISTANCE * BITE_DISTANCE)
        }),
{
    let ox = if facing_right {
        mouth_offset.x
    } else {
        -mouth_offset.x
    };
    let dx = hook_pos.x + ox - fish_pos.x;
    let dy = hook_pos.y + mouth_offset.y - fish_pos.y;
    proof {
        crate::math::lemma_sq_bound(dx as int, 4 * POS_LIMIT as int);
        crate::math::lemma_sq_bound(dy as int, 4 * POS_LIMIT as int);
    }
    let d2 = (dx as i128) * (dx as i128) + (dy as i128) * (dy as i128);
    d2 < (BITE_DISTANCE as i128) * (BITE_DISTANCE as i128)
}

} // verus!
