use hook_line_sinker::hook::{bite_in_range, calculate_return_position, cast_arc, catch_is_critical, knock_out_return_arc, on_bite, on_hook_landed, on_level_reset, on_reeled_to_surface, reel_step, stack_target, steer_hook, try_cast, try_catch, HookPhase};
use hook_line_sinker::spawn::{bounce_at_boundaries, fish_movement_step, mouth_offset, movement_timer_from_draws, spawn_draws, spawn_fish, spawn_fish_random, tick_timer, SwimTimer};
use hook_line_sinker::vec2::Vec2i;

fn v(x: i64, y: i64) -> Vec2i {
    Vec2i { x, y }
}

#[test]
fn catch_window_boundary() {
    assert!(catch_is_critical(69, 0));
    assert!(!catch_is_critical(70, 0));
    assert!(catch_is_critical(1069, 1000));
}

#[test]
fn hook_phase_round_trip() {
    let phase = HookPhase::Waiting;
    let (phase, cast) = try_cast(phase, false);
    assert!(cast);
    assert_eq!(phase, HookPhase::Casting);
    // casting again is refused mid-flight
    let (phase, cast) = try_cast(phase, false);
    assert!(!cast);
    let phase = on_hook_landed(phase);
    assert_eq!(phase, HookPhase::InWater);
    let phase = on_bite(phase);
    assert_eq!(phase, HookPhase::NearFish);
    // an ordinary catch starts reeling, then the surface frees the hook
    let (phase, caught, critical) = try_catch(phase, false, 1000, 0);
    assert!(caught);
    assert!(!critical);
    assert_eq!(phase, HookPhase::Reeling);
    let phase = on_reeled_to_surface(phase);
    assert_eq!(phase, HookPhase::Waiting);
}

#[test]
fn critical_catch_skips_reeling() {
    let (phase, caught, critical) = try_catch(HookPhase::NearFish, false, 50, 0);
    assert!(caught);
    assert!(critical);
    assert_eq!(phase, HookPhase::Waiting);
}

#[test]
fn popup_blocks_commands() {
    let (phase, cast) = try_cast(HookPhase::Waiting, true);
    assert!(!cast);
    assert_eq!(phase, HookPhase::Waiting);
    let (phase, caught, _) = try_catch(HookPhase::NearFish, true, 50, 0);
    assert!(!caught);
    assert_eq!(phase, HookPhase::NearFish);
}

#[test]
fn reset_rehomes_the_hook() {
    assert_eq!(on_level_reset(HookPhase::Reeling), HookPhase::Waiting);
    assert_eq!(on_level_reset(HookPhase::NearFish), HookPhase::Waiting);
}

#[test]
fn reel_stops_exactly_at_surface() {
    // far below: one second of reeling stays under the surface
    assert_eq!(reel_step(-800_000_000, 100), (-740_000_000, false));
    // crossing: the catch stops exactly on the surface line
    assert_eq!(reel_step(0, 1000), (350_000_000, true));
}

#[test]
fn steering_clamps_to_water_band() {
    assert_eq!(steer_hook(0, true, false, 100), 30_000_000);
    assert_eq!(steer_hook(0, false, true, 100), -30_000_000);
    assert_eq!(steer_hook(0, true, true, 100), 0);
    assert_eq!(steer_hook(240_000_000, true, false, 1000), 250_000_000);
    assert_eq!(steer_hook(-850_000_000, false, true, 1000), -850_000_000);
}

#[test]
fn bite_requires_proximity_to_mouth() {
    let mouth = mouth_offset(1);
    assert!(bite_in_range(v(0, 0), v(0, 0), true, mouth));
    assert!(!bite_in_range(v(100_000_000, 0), v(0, 0), true, mouth));
    // the mouth flips with the facing
    assert!(bite_in_range(v(30_000_000, 0), v(0, 0), false, mouth));
    assert!(!bite_in_range(v(-90_000_000, 0), v(0, 0), true, mouth));
}

#[test]
fn return_position_maps_lane_to_surface_band() {
    let p = calculate_return_position(-250_000_000);
    assert_eq!(p, v(377_000_000, -250_000_000));
    // the top of the water maps to the left edge of the shrunken band
    let p = calculate_return_position(350_000_000);
    assert_eq!(p, v(-203_000_000, 350_000_000));
}

#[test]
fn knockout_arc_reaches_the_lane() {
    let rt = knock_out_return_arc(v(-1_000_000_000, 435_000_000), -250_000_000, 0);
    assert_eq!(rt.end_pos, v(377_000_000, -250_000_000));
    assert_eq!(rt.water_entrance_pos.y, 350_000_000);
    assert_eq!(rt.end_time, 609 + 632 + 316);
}

#[test]
fn cast_arc_flies_to_target() {
    let t = cast_arc(v(-520_000_000, 540_000_000), 0);
    assert_eq!(t.end_pos, v(300_000_000, 220_000_000));
    assert_eq!(t.end_time, 822);
    assert_eq!(t.start_vel.y, 6000 * 346);
}

#[test]
fn stack_target_rises_with_occupancy() {
    assert_eq!(stack_target(v(0, 0), 0), v(0, 0));
    assert_eq!(stack_target(v(0, 0), 2), v(0, 100_000_000));
}

#[test]
fn timer_wraps_and_fires() {
    let t = SwimTimer { period: 3000, elapsed: 2999 };
    let (t2, fired) = tick_timer(t, 1);
    assert!(fired);
    assert_eq!(t2.elapsed, 0);
    let (t3, fired) = tick_timer(t2, 100);
    assert!(!fired);
    assert_eq!(t3.elapsed, 100);
}

#[test]
fn movement_applies_dart_velocity_on_fire() {
    let t = SwimTimer { period: 3000, elapsed: 2999 };
    let (_, vel, fired) = fish_movement_step(t, 0, 500_000, 5);
    assert!(fired);
    assert_eq!(vel, 500_000);
    let t = SwimTimer { period: 3000, elapsed: 0 };
    let (_, vel, fired) = fish_movement_step(t, 7, 500_000, 5);
    assert!(!fired);
    assert_eq!(vel, 7);
}

#[test]
fn timer_from_draws() {
    let t = movement_timer_from_draws(0, 0);
    assert_eq!(t.period, 3000);
    assert_eq!(t.elapsed, 0);
    let t = movement_timer_from_draws(5999, 8999);
    assert_eq!(t.period, 8999);
    assert_eq!(t.elapsed, 8999 % 8999);
}

#[test]
fn bounce_reflects_at_edges() {
    assert_eq!(bounce_at_boundaries(150, true, 10, 20, -100, 100), (100, false, -10, -20));
    assert_eq!(bounce_at_boundaries(-150, false, -10, -20, -100, 100), (-100, true, 10, 20));
    assert_eq!(bounce_at_boundaries(50, true, 10, 20, -100, 100), (50, true, 10, 20));
}

#[test]
fn spawn_layout_from_fixed_draws() {
    let draws = vec![0u64; 50];
    let school = spawn_fish(&draws);
    assert_eq!(school.len(), 10);
    for (k, f) in school.iter().enumerate() {
        // zero draws leave the lane order as the atlas order
        assert_eq!(f.atlas_index, k);
        assert_eq!(f.pos.x, -348_000_000);
        assert_eq!(f.pos.y, -850_000_000 + 110_000_000 * k as i64);
        assert_eq!(f.lane_y, f.pos.y);
        assert_eq!(f.timer.period, 3000);
        assert_eq!(f.timer.elapsed, 0);
    }
    // the largest fish swims in the bottom lane under zero draws
    assert_eq!(school[0].size_class, 10);
    assert_eq!(school[9].size_class, 1);
    // boundaries leave room for the sprite's half width
    assert_eq!(school[0].min_x, -725_000_000 + 377_000_000 + 210_000_000);
    assert_eq!(school[0].max_x, 725_000_000 + 377_000_000 - 210_000_000);
}

#[test]
fn spawn_uses_every_atlas_slot_once() {
    let mut draws = Vec::new();
    for i in 0..50u64 {
        draws.push(i * 2_654_435_761 + 11);
    }
    let school = spawn_fish(&draws);
    assert_eq!(school.len(), 10);
    let mut seen = [false; 10];
    let mut size_sum = 0u32;
    for f in &school {
        assert!(f.atlas_index < 10);
        assert!(!seen[f.atlas_index]);
        seen[f.atlas_index] = true;
        size_sum += f.size_class;
    }
    // each size class from one to ten appears exactly once
    assert_eq!(size_sum, 55);
}

#[test]
fn random_spawn_is_well_formed() {
    let draws = spawn_draws();
    assert_eq!(draws.len(), 50);
    let school = spawn_fish_random();
    assert_eq!(school.len(), 10);
    let mut seen = [false; 10];
    for f in &school {
        assert!(f.atlas_index < 10);
        assert!(!seen[f.atlas_index]);
        seen[f.atlas_index] = true;
        assert!(f.timer.period >= 3000 && f.timer.period < 9000);
        assert!(f.timer.elapsed < f.timer.period);
        assert!(f.min_x < f.max_x);
    }
}
