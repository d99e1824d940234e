use vstd::prelude::*;
use crate::vec2::Vec2i;
use crate::math::mag;
use crate::constants::{WATER_POS_X, WATER_POS_Y, WATER_SIZE_X, WATER_SIZE_Y, FISH_PER_LEVEL, COORD_LIMIT, DRAG_VEL_LIMIT, STEP_TICKS_LIMIT, TIME_LIMIT};

verus! {

/// A repeating dart timer for a free-swimming fish.
#[derive(Clone, Copy, Debug, PartialEq, Eq, Structural)]
pub struct SwimTimer {
    pub period: i64,
    pub elapsed: i64,
}

/// Validity of a dart timer.
pub open spec fn timer_wf(t: SwimTimer) -> bool {
    &&& 1 <= t.period <= TIME_LIMIT
    &&& 0 <= t.elapsed < t.period
}

/// Advance a repeating timer by `dt` ticks: it fires when it crosses its
/// period and wraps around.
pub fn tick_timer(t: SwimTimer, dt: i64) -> (r: (SwimTimer, bool))
    requires
        timer_wf(t),
        0 <= dt <= STEP_TICKS_LIMIT,
    ensures
        timer_wf(r.0),
        r.0.period == t.period,
        r.1 == (t.elapsed + dt >= t.period),
        r.1 ==> r.0.elapsed == (t.elapsed + dt) % (t.period as int),
        !r.1 ==> r.0.elapsed == t.elapsed + dt,
{
    let e2 = t.elapsed + dt;
    if e2 >= t.period {
        proof {
            vstd::arithmetic::div_mod::lemma_mod_division_less_than_divisor(
                e2 as int,
                t.period as int,
            );
        }
        let w = (((e2 as u64) % (t.period as u64)) as i64);
        (SwimTimer { period: t.period, elapsed: w }, true)
    } else {
        (SwimTimer { period: t.period, elapsed: e2 }, false)
    }
}

/// One movement tick of a free-swimming fish: when its dart timer fires,
/// the stored dart velocity is applied to its horizontal speed.
pub fn fish_movement_step(timer: SwimTimer, vel_x: i64, vel_to_apply: i64, dt: i64) -> (r: (
    SwimTimer,
    i64,
    bool,
))
    requires
        timer_wf(timer),
        0 <= dt <= STEP_TICKS_LIMIT,
    ensures
        timer_wf(r.0),
        r.0.period == timer.period,
        r.2 == (timer.elapsed + dt >= timer.period),
        r.2 ==> r.1 == vel_to_apply,
        !r.2 ==> r.1 == vel_x,
{
    let (t2, fired) = tick_timer(timer, dt);
    if fired {
        (t2, vel_to_apply, true)
    } else {
        (t2, vel_x, false)
    }
}

/// Build a dart timer from two draws: a period of three to nine seconds'
/// worth of ticks, started somewhere within its first nine seconds.
pub fn movement_timer_from_draws(d_period: u64, d_tick: u64) -> (t: SwimTimer)
    ensures
        timer_wf(t),
        t.period == 3000 + d_period % 6000,
        t.elapsed == (d_tick % 9000) as int % (t.period as int),
{
    proof {
        vstd::arithmetic::div_mod::lemma_mod_division_less_than_divisor(d_period as int, 6000);
        vstd::arithmetic::div_mod::lemma_mod_division_less_than_divisor(d_tick as int, 9000);
    }
    let period = 3000i64 + ((d_period % 6000u64) as i64);
    let e0 = (d_tick % 9000u64) as i64;
    proof {
        vstd::arithmetic::div_mod::lemma_mod_division_less_than_divisor(e0 as int, period as int);
    }
    let elapsed = (((e0 as u64) % (period as u64)) as i64);
    SwimTimer { period, elapsed }
}

/// The size class of each sprite-atlas slot, largest first in each
/// column.
pub open spec fn spec_atlas_size(index: int) -> u32 {
    if index == 0 {
        10
    } else if index == 1 {
        5
    } else if index == 2 {
        9
    } else if index == 3 {
        4
    } else if index == 4 {
        8
    } else if index == 5 {
        3
    } else if index == 6 {
        7
    } else if index == 7 {
        2
    } else if index == 8 {
        6
    } else {
        1
    }
}

/// Look up the size class of an atlas slot.
pub fn atlas_size(index: usize) -> (r: u32)
    requires
        index < FISH_PER_LEVEL,
    ensures
        r == spec_atlas_size(index as int),
        1 <= r <= 10,
{
    if index == 0 {
        10
    } else if index == 1 {
        5
    } else if index == 2 {
        9
    } else if index == 3 {
        4
    } else if index == 4 {
        8
    } else if index == 5 {
        3
    } else if index == 6 {
        7
    } else if index == 7 {
        2
    } else if index == 8 {
        6
    } else {
        1
    }
}

/// Half the sprite width of a fish of the given size class.
pub open spec fn spec_half_width(size: int) -> int {
    (size - 1) * 20_000_000 + 30_000_000
}

/// Where a fish's mouth sits relative to its centre.
pub open spec fn spec_mouth_offset(size: int) -> Vec2i {
    Vec2i { x: spec_half_width(size) as i64, y: 20_000_000 }
}

/// Compute the mouth offset of a fish of the given size class.
pub fn mouth_offset(size: u32) -> (p: Vec2i)
    requires
        1 <= size <= 10,
    ensures
        p == spec_mouth_offset(size as int),
{
    let half_width = ((size - 1) as i64) * 20_000_000 + 30_000_000;
    Vec2i { x: half_width, y: 20_000_000 }
}

/// Reflect a fish at its swimming boundaries: it is snapped back onto
/// the crossed edge, turns around, and both its velocity and its stored
/// dart velocity flip.
pub fn bounce_at_boundaries(
    x: i64,
    facing_right: bool,
    vel_x: i64,
    vel_to_apply: i64,
    min_x: i64,
    max_x: i64,
) -> (r: (i64, bool, i64, i64))
    requires
        min_x <= max_x,
        mag(x as int) <= COORD_LIMIT,
        mag(vel_x as int) <= DRAG_VEL_LIMIT,
        mag(vel_to_apply as int) <= DRAG_VEL_LIMIT,
    ensures
        x > max_x ==> r == (max_x, !facing_right, (-vel_x) as i64, (-vel_to_apply) as i64),
        x < min_x ==> r == (min_x, !facing_right, (-vel_x) as i64, (-vel_to_apply) as i64),
        min_x <= x <= max_x ==> r == (x, facing_right, vel_x, vel_to_apply),
{
    if x > max_x {
        (max_x, !facing_right, -vel_x, -vel_to_apply)
    } else if x < min_x {
        (min_x, !facing_right, -vel_x, -vel_to_apply)
    } else {
        (x, facing_right, vel_x, vel_to_apply)
    }
}

/// Everything one spawned fish starts with.
#[derive(Clone, Copy, Debug, PartialEq, Eq, Structural)]
pub struct FishSpawn {
    pub atlas_index: usize,
    pub size_class: u32,
    pub pos: Vec2i,
    pub lane_y: i64,
    pub min_x: i64,
    pub max_x: i64,
    pub mouth_offset: Vec2i,
    pub timer: SwimTimer,
}

/// The horizontal spawn position a draw picks, anywhere across the
/// water.
pub open spec fn spec_spawn_x(d: u64) -> int {
    WATER_POS_X as int - WATER_SIZE_X as int / 2 + d as int % (WATER_SIZE_X as int)
}

/// The vertical spawn position a draw picks, inside lane `k`: the lanes
/// stack upward from the bottom of the swimmable box, and the draw
/// scatters the fish across the lower part of its lane.
pub open spec fn spec_spawn_y(k: int, d: u64) -> int {
    let height_offset: int = 100_000_000;
    let box_height = WATER_SIZE_Y as int - height_offset;
    let lane_height = box_height / (FISH_PER_LEVEL as int);
    WATER_POS_Y as int - (box_height - height_offset) / 2 - height_offset + lane_height * k
        + d as int % (lane_height * 8 / 10)
}

/// The swimming boundaries of a fish of the given size class.
pub open spec fn spec_min_x(size: int) -> int {
    -(WATER_SIZE_X as int) / 2 + WATER_POS_X as int + spec_half_width(size)
}

/// The swimming boundaries of a fish of the given size class.
pub open spec fn spec_max_x(size: int) -> int {
    WATER_SIZE_X as int / 2 + WATER_POS_X as int - spec_half_width(size)
}

/// What the four draws of one fish determine: its spawn point inside its
/// lane, its boundaries and mouth from its size class, and its dart
/// timer.
pub open spec fn spawn_fields_ok(s: FishSpawn, k: int, dx: u64, dy: u64, dp: u64, dt: u64) -> bool {
    &&& s.atlas_index < FISH_PER_LEVEL
    &&& s.size_class == spec_atlas_size(s.atlas_index as int)
    &&& s.pos.x == spec_spawn_x(dx)
    &&& s.pos.y == spec_spawn_y(k, dy)
    &&& s.lane_y == s.pos.y
    &&& s.min_x == spec_min_x(s.size_class as int)
    &&& s.max_x == spec_max_x(s.size_class as int)
    &&& s.mouth_offset == spec_mouth_offset(s.size_class as int)
    &&& s.timer.period == 3000 + dp % 6000
    &&& s.timer.elapsed == (dt % 9000) as int % (s.timer.period as int)
    &&& timer_wf(s.timer)
}

/// Lay out a fresh school of fish from fifty draws: the first ten
/// shuffle which sprite goes to which lane, and each fish then takes
/// four draws for its position and timer.  Every atlas slot is used
/// exactly once.
pub fn spawn_fish(draws: &Vec<u64>) -> (r: Vec<FishSpawn>)
    requires
        draws@.len() == 5 * FISH_PER_LEVEL,
    ensures
        r@.len() == FISH_PER_LEVEL,
        forall|k: int|
            0 <= k < FISH_PER_LEVEL ==> spawn_fields_ok(
                #[trigger] r@[k],
                k,
                draws@[10 + 4 * k],
                draws@[10 + 4 * k + 1],
                draws@[10 + 4 * k + 2],
                draws@[10 + 4 * k + 3],
            ),
        forall|p: int, q: int|
            0 <= p < FISH_PER_LEVEL && 0 <= q < FISH_PER_LEVEL && p != q ==> r@[p].atlas_index
                != r@[q].atlas_index,
{
    let n = FISH_PER_LEVEL;
    let mut order: Vec<usize> = Vec::new();
    let mut i: usize = 0;
    while i < n
        invariant
            i <= n,
            order@.len() == i,
            forall|j: int| 0 <= j < i ==> (#[trigger] order@[j]) == j,
        decreases n - i,
    {
        order.push(i);
        i = i + 1;
    }
    // shuffle: draw the occupant of each lane in turn
    let mut s: usize = 0;
    while s < n
        invariant
            s <= n,
            n == FISH_PER_LEVEL,
            order@.len() == n,
            draws@.len() == 5 * n,
            forall|j: int| 0 <= j < n ==> (#[trigger] order@[j]) < n,
            forall|p: int, q: int|
                0 <= p < n && 0 <= q < n && p != q ==> order@[p] != order@[q],
        decreases n - s,
    {
        let span = (n - s) as u64;
        proof {
            vstd::arithmetic::div_mod::lemma_mod_division_less_than_divisor(
                draws@[s as int] as int,
                span as int,
            );
        }
        let j = s + ((draws[s] % span) as usize);
        let a = order[s];
        let b = order[j];
        order.set(s, b);
        order.set(j, a);
        s = s + 1;
    }
    // lay each fish out in its lane
    let mut out: Vec<FishSpawn> = Vec::new();
    let mut k: usize = 0;
    while k < n
        invariant
            k <= n,
            n == FISH_PER_LEVEL,
            order@.len() == n,
            draws@.len() == 5 * n,
            out@.len() == k,
            forall|j: int| 0 <= j < n ==> (#[trigger] order@[j]) < n,
            forall|p: int, q: int|
                0 <= p < n && 0 <= q < n && p != q ==> order@[p] != order@[q],
            forall|j: int|
                0 <= j < k ==> spawn_fields_ok(
                    #[trigger] out@[j],
                    j,
                    draws@[10 + 4 * j],
                    draws@[10 + 4 * j + 1],
                    draws@[10 + 4 * j + 2],
                    draws@[10 + 4 * j + 3],
                ),
            forall|j: int| 0 <= j < k ==> (#[trigger] out@[j]).atlas_index == order@[j],
        decreases n - k,
    {
        let atlas_index = order[k];
        let size = atlas_size(atlas_index);
        let d_x = draws[10 + 4 * k];
        let d_y = draws[10 + 4 * k + 1];
        let d_p = draws[10 + 4 * k + 2];
        let d_t = draws[10 + 4 * k + 3];
        proof {
            vstd::arithmetic::div_mod::lemma_mod_division_less_than_divisor(
                d_x as int,
                WATER_SIZE_X as int,
            );
            vstd::arithmetic::div_mod::lemma_mod_division_less_than_divisor(d_y as int, 88_000_000);
        }
        let pos_x = WATER_POS_X - WATER_SIZE_X / 2 + ((d_x % (WATER_SIZE_X as u64)) as i64);
        let lane_height = (WATER_SIZE_Y - 100_000_000) / (n as i64);
        let band = lane_height * 8 / 10;
        let pos_y = WATER_POS_Y - (WATER_SIZE_Y - 200_000_000) / 2 - 100_000_000 + lane_height * (
        k as i64) + ((d_y % (band as u64)) as i64);
        let half_width = ((size - 1) as i64) * 20_000_000 + 30_000_000;
        let spawn = FishSpawn {
            atlas_index,
            size_class: size,
            pos: Vec2i { x: pos_x, y: pos_y },
            lane_y: pos_y,
            min_x: -WATER_SIZE_X / 2 + WATER_POS_X + half_width,
            max_x: WATER_SIZE_X / 2 + WATER_POS_X - half_width,
            mouth_offset: mouth_offset(size),
            timer: movement_timer_from_draws(d_p, d_t),
        };
        out.push(spawn);
        k = k + 1;
    }
    out
}

/// Relies on rand::random: one draw from the thread-local generator.
/// Nothing is promised of its value.
#[verifier::external_body]
fn random_u64() -> u64 {
    rand::random::<u64>()
}

/// Collect the fifty draws one school needs from the random generator.
pub fn spawn_draws() -> (d: Vec<u64>)
    ensures
        d@.len() == 5 * FISH_PER_LEVEL,
{
    let mut v: Vec<u64> = Vec::new();
    let mut i: usize = 0;
    while i < 50
        invariant
            i <= 50,
            v@.len() == i,
        decreases 50 - i,
    {
        v.push(random_u64());
        i = i + 1;
    }
    v
}

/// Spawn a fresh school from the random generator.  Whatever the draws
/// come out as, every atlas slot is used exactly once and every fish
/// starts inside its own lane with a valid timer.
pub fn spawn_fish_random() -> (r: Vec<FishSpawn>)
    ensures
        r@.len() == FISH_PER_LEVEL,
        forall|p: int, q: int|
            0 <= p < FISH_PER_LEVEL && 0 <= q < FISH_PER_LEVEL && p != q ==> r@[p].atlas_index
                != r@[q].atlas_index,
        forall|k: int|
            0 <= k < FISH_PER_LEVEL ==> (#[trigger] r@[k]).atlas_index < FISH_PER_LEVEL
                && r@[k].size_class == spec_atlas_size(r@[k].atlas_index as int) && timer_wf(
                r@[k].timer,
            ) && r@[k].lane_y == r@[k].pos.y,
{
    let draws = spawn_draws();
    spawn_fish(&draws)
}

} // verus!
