use hook_line_sinker::arc::{solve_simple_arc, solve_arc_trajectory, solve_return_arc};
use hook_line_sinker::drag::drag_step;
use hook_line_sinker::motion::{advance_motion, advance_return, advance_trajectory, DragMotion, MotionEvent, MotionState};
use hook_line_sinker::vec2::Vec2i;

fn v(x: i64, y: i64) -> Vec2i {
    Vec2i { x, y }
}

#[test]
fn drag_zero_velocity_is_noop() {
    assert_eq!(drag_step(3, 0, 5, 10), (3, 0));
}

#[test]
fn drag_zero_drag_moves_uniformly() {
    assert_eq!(drag_step(7, 5, 0, 10), (57, 5));
    assert_eq!(drag_step(0, -5, 0, 10), (-50, -5));
}

#[test]
fn drag_clamps_at_zero_with_triangular_distance() {
    // speed 10 against drag 1 stops after 10 ticks, covering 50 units
    assert_eq!(drag_step(0, 10, 1, 20), (50, 0));
    assert_eq!(drag_step(5, -10, 1, 20), (-45, 0));
    // stopping exactly at the step edge takes the same distance
    assert_eq!(drag_step(0, 10, 1, 10), (50, 0));
}

#[test]
fn drag_trapezoidal_distance_before_stopping() {
    // 3 ticks at drag 1 from speed 10: ends at 7, covers 7*3 + 9/2
    assert_eq!(drag_step(0, 10, 1, 3), (25, 7));
    assert_eq!(drag_step(100, -8, 2, 2), (88, -4));
}

#[test]
fn drag_distance_is_monotone_in_step_length() {
    let mut last: i64 = 0;
    for dt in 0..40 {
        let (p, _) = drag_step(0, 10, 1, dt);
        assert!(p >= last);
        last = p;
    }
    // and velocity never flips sign along the way
    for dt in 0..40 {
        let (_, vel) = drag_step(0, -10, 1, dt);
        assert!(vel <= 0);
    }
}

#[test]
fn simple_arc_exact_small_case() {
    // start and end level, apex 50 above, unit gravity
    let (vel, total) = solve_simple_arc(v(0, 0), v(100, 0), 1, 50);
    assert_eq!(total, 20);
    assert_eq!(vel, v(5, 10));
    let t = solve_arc_trajectory(v(0, 0), v(100, 0), 1, 50, 0);
    assert_eq!(t.end_time, 20);
    // the flight starts at the start, tops out at the apex, lands at
    // the end
    assert_eq!(t.position_at(0), v(0, 0));
    assert_eq!(t.position_at(10), v(50, 50));
    assert_eq!(t.position_at(20), v(100, 0));
}

#[test]
fn simple_arc_game_scale_cast() {
    // the rod tip to the cast target, in millionths of a pixel
    let (vel, total) = solve_simple_arc(
        v(-520_000_000, 540_000_000),
        v(300_000_000, 220_000_000),
        6000,
        900_000_000,
    );
    assert_eq!(total, 346 + 476);
    assert_eq!(vel.y, 6000 * 346);
    assert_eq!(vel.x, 820_000_000 / 822);
}

#[test]
fn trajectory_advance_snaps_to_end() {
    let t = solve_arc_trajectory(v(0, 0), v(100, 0), 1, 50, 5);
    assert_eq!(advance_trajectory(&t, 26), (v(100, 0), true));
    assert_eq!(advance_trajectory(&t, 25), (v(100, 0), false));
    assert_eq!(advance_trajectory(&t, 5), (v(0, 0), false));
}

#[test]
fn return_arc_exact_small_case() {
    let rt = solve_return_arc(v(0, 50), v(47, -100), 0, 1, 2, 100);
    assert_eq!(rt.start_time, 100);
    assert_eq!(rt.water_entrance_time, 137);
    assert_eq!(rt.end_time, 147);
    assert_eq!(rt.start_vel, v(1, 17));
    assert_eq!(rt.water_entrance_vel, v(1, -20));
    assert_eq!(rt.water_entrance_pos, v(37, 0));
    assert_eq!(rt.end_pos, v(47, -100));
}

#[test]
fn return_arc_phases_and_snap() {
    let rt = solve_return_arc(v(0, 50), v(47, -100), 0, 1, 2, 100);
    // air phase: ballistic from the start
    assert_eq!(advance_return(&rt, 120), (v(20, 190), false));
    // underwater phase: decelerating from the stored entrance point
    assert_eq!(advance_return(&rt, 142), (v(42, -75), false));
    // past the end: exactly the end point
    assert_eq!(advance_return(&rt, 148), (v(47, -100), true));
}

#[test]
fn return_arc_game_scale_knockout() {
    // a knocked-out catch returning from the stack to a mid lane
    let rt = solve_return_arc(
        v(-1_000_000_000, 435_000_000),
        v(377_000_000, -250_000_000),
        350_000_000,
        6000,
        12000,
        0,
    );
    assert_eq!(rt.end_time, 609 + 632 + 316);
    assert_eq!(rt.water_entrance_time, 609 + 632);
    assert_eq!(rt.start_vel.y, 6000 * 609);
    assert_eq!(rt.start_vel.x, 884_393);
    assert_eq!(rt.water_entrance_vel, Vec2i { x: 884_393, y: -3_792_000 });
    assert_eq!(rt.water_entrance_pos.y, 350_000_000);
    assert_eq!(rt.water_entrance_pos.x, 377_000_000 - 316 * 884_393);
}

#[test]
fn motion_swimming_applies_drag() {
    let state = MotionState::Swimming(DragMotion { vel: v(10, 0), drag: v(1, 0) });
    let (s2, p2, ev) = advance_motion(state, v(0, 0), 0, 3);
    assert_eq!(p2, v(25, 0));
    assert_eq!(ev, MotionEvent::Quiet);
    match s2 {
        MotionState::Swimming(d) => assert_eq!(d.vel, v(7, 0)),
        _ => panic!("expected the entity to keep swimming"),
    }
}

#[test]
fn motion_cast_arc_lands_in_water() {
    let t = solve_arc_trajectory(v(0, 0), v(100, 0), 1, 50, 0);
    let state = MotionState::Casting(t);
    let (s2, p2, ev) = advance_motion(state, v(0, 0), 21, 16);
    assert_eq!(s2, MotionState::Idle);
    assert_eq!(p2, v(100, 0));
    assert_eq!(ev, MotionEvent::LandedInWater);
}

#[test]
fn motion_stack_arc_emits_landed_in_stack() {
    let t = solve_arc_trajectory(v(0, 0), v(100, 0), 1, 50, 0);
    let state = MotionState::FlyingToStack(t);
    let (s2, _, ev) = advance_motion(state, v(0, 0), 100, 16);
    assert_eq!(s2, MotionState::Idle);
    assert_eq!(ev, MotionEvent::LandedInStack);
}

#[test]
fn motion_return_arc_hands_back_to_swimming() {
    let rt = solve_return_arc(v(0, 50), v(47, -100), 0, 1, 2, 100);
    let state = MotionState::ReturningToWater(rt);
    let (s2, p2, ev) = advance_motion(state, v(0, 50), 150, 16);
    assert_eq!(p2, v(47, -100));
    assert_eq!(ev, MotionEvent::ReturnedToWater { exit_vel: v(1, 0) });
    match s2 {
        MotionState::Swimming(d) => {
            assert_eq!(d.vel, v(1, 0));
            assert_eq!(d.drag, v(50, 12000));
        }
        _ => panic!("expected the entity to swim again"),
    }
}
