use vstd::prelude::*;
use crate::vec2::Vec2i;
use crate::math::{mag, div_tz, sqrt_floor, isqrt, div_trunc, lemma_div_bracket, lemma_div_tz_bracket};
use crate::constants::{POS_LIMIT, RATE_LIMIT, VEL_LIMIT, TIME_LIMIT, COORD_LIMIT, PROD_LIMIT, TIME_ABS_LIMIT, NOW_LIMIT};

verus! {

/// A closed-form parabolic flight between two known points, valid for
/// `start_time <= t <= end_time`.
#[derive(Clone, Copy, Debug, PartialEq, Eq, Structural)]
pub struct Trajectory {
    pub start_vel: Vec2i,
    pub gravity: i64,
    pub start_pos: Vec2i,
    pub end_pos: Vec2i,
    pub start_time: i64,
    pub end_time: i64,
}

/// Horizontal ballistic position after `t` ticks: uniform motion.
pub open spec fn ballistic_x(sx: int, vx: int, t: int) -> int {
    sx + vx * t
}

/// Vertical ballistic position after `t` ticks: launch speed `vy` upward
/// against gravity `g`.
pub open spec fn ballistic_y(sy: int, vy: int, g: int, t: int) -> int {
    sy + vy * t - (g * t * t) / 2
}

/// Vertical position `t` ticks after entering the water moving down at
/// `wvy <= 0`, decelerated by drag `wd`.
pub open spec fn submerged_y(wy: int, wvy: int, wd: int, t: int) -> int {
    wy + wvy * t + (wd * t * t) / 2
}

/// Time to fall from rest through height `h` under gravity `g`, on the
/// quantized tick grid.
pub open spec fn fall_ticks(g: int, h: int) -> int
    recommends
        g >= 1,
        h >= 0,
{
    sqrt_floor(((2 * h) / g) as nat) as int
}

/// Inputs the simple-arc solver accepts: an apex strictly above both
/// endpoints (by at least half a gravity quantum, so the quantized rise
/// and fall each last at least one tick), and magnitudes within the
/// machine caps.
pub open spec fn simple_arc_ok(start: Vec2i, end: Vec2i, g: int, apex_y: int) -> bool {
    &&& 1 <= g <= RATE_LIMIT
    &&& mag(start.x as int) <= POS_LIMIT
    &&& mag(start.y as int) <= POS_LIMIT
    &&& mag(end.x as int) <= POS_LIMIT
    &&& mag(end.y as int) <= POS_LIMIT
    &&& mag(apex_y) <= POS_LIMIT
    &&& apex_y > start.y
    &&& apex_y > end.y
    &&& 2 * (apex_y - start.y) >= g
    &&& 2 * (apex_y - end.y) >= g
}

/// Rise ticks of a solved simple arc.
pub open spec fn simple_arc_rise(start: Vec2i, g: int, apex_y: int) -> int {
    fall_ticks(g, apex_y - start.y)
}

/// Fall ticks of a solved simple arc.
pub open spec fn simple_arc_fall(end: Vec2i, g: int, apex_y: int) -> int {
    fall_ticks(g, apex_y - end.y)
}

/// Total flight time of a solved simple arc.
pub open spec fn simple_arc_duration(start: Vec2i, end: Vec2i, g: int, apex_y: int) -> int {
    simple_arc_rise(start, g, apex_y) + simple_arc_fall(end, g, apex_y)
}

impl Trajectory {
    /// Flight time of the arc.
    pub open spec fn duration(self) -> int {
        self.end_time - self.start_time
    }

    /// Well-formedness: every bound the position formulas need in order
    /// to stay inside `i64`.
    pub open spec fn wf(self) -> bool {
        &&& 1 <= self.gravity <= RATE_LIMIT
        &&& 0 <= self.duration() <= TIME_LIMIT
        &&& 0 <= self.start_time <= self.end_time <= TIME_ABS_LIMIT
        &&& mag(self.start_pos.x as int) <= COORD_LIMIT
        &&& mag(self.start_pos.y as int) <= COORD_LIMIT
        &&& mag(self.end_pos.x as int) <= COORD_LIMIT
        &&& mag(self.end_pos.y as int) <= COORD_LIMIT
        &&& 0 <= self.start_vel.y
        &&& self.start_vel.y * self.duration() <= PROD_LIMIT
        &&& mag(self.start_vel.x as int) * self.duration() <= PROD_LIMIT
        &&& self.gravity * self.duration() * self.duration() <= PROD_LIMIT
    }

    /// The point the arc passes through `elapsed` ticks after launch.
    pub fn position_at(&self, elapsed: i64) -> (p: Vec2i)
        requires
            self.wf(),
            0 <= elapsed <= self.duration(),
        ensures
            p.x == ballistic_x(self.start_pos.x as int, self.start_vel.x as int, elapsed as int),
            p.y == ballistic_y(
                self.start_pos.y as int,
                self.start_vel.y as int,
                self.gravity as int,
                elapsed as int,
            ),
    {
        proof {
            lemma_eval_products(
                self.start_vel.x as int,
                self.start_vel.y as int,
                self.gravity as int,
                elapsed as int,
                self.duration(),
            );
        }
        let dx = self.start_vel.x * elapsed;
        let dy = self.start_vel.y * elapsed;
        let gt = self.gravity * elapsed;
        let gtt = gt * elapsed;
        let half = ((gtt as u64) / 2u64) as i64;
        Vec2i {
            x: self.start_pos.x + dx,
            y: self.start_pos.y + dy - half,
        }
    }
}

/// Bounds on the products appearing in the ballistic formulas, for a
/// well-formed trajectory evaluated inside its time window.
proof fn lemma_eval_products(vx: int, vy: int, g: int, t: int, dur: int)
    requires
        0 <= t <= dur,
        0 <= vy,
        1 <= g <= RATE_LIMIT,
        dur <= TIME_LIMIT,
        vy * dur <= PROD_LIMIT,
        mag(vx) * dur <= PROD_LIMIT,
        g * dur * dur <= PROD_LIMIT,
    ensures
        0 <= vy * t <= PROD_LIMIT,
        -PROD_LIMIT <= vx * t <= PROD_LIMIT,
        0 <= g * t <= RATE_LIMIT * TIME_LIMIT,
        0 <= g * t * t <= PROD_LIMIT,
{
    assert(0 <= vy * t <= vy * dur) by (nonlinear_arith)
        requires
            0 <= t <= dur,
            0 <= vy,
    ;
    let m = mag(vx);
    assert(-(m * dur) <= vx * t <= m * dur && 0 <= m * dur) by (nonlinear_arith)
        requires
            0 <= t <= dur,
            0 <= m,
            -m <= vx <= m,
    ;
    assert(0 <= g * t <= RATE_LIMIT * TIME_LIMIT) by (nonlinear_arith)
        requires
            0 <= t <= dur <= TIME_LIMIT,
            1 <= g <= RATE_LIMIT,
    ;
    assert(0 <= g * t * t <= g * dur * dur) by (nonlinear_arith)
        requires
            0 <= t <= dur,
            1 <= g,
    ;
}

/// Compute the launch velocity and flight time of a parabolic arc from
/// `start` to `end` whose apex sits at height `apex_y`: the rise and the
/// fall are each timed as a free fall from the apex, the vertical launch
/// speed cancels gravity over the rise, and the horizontal speed covers
/// the ground uniformly.
pub fn solve_simple_arc(start: Vec2i, end: Vec2i, gravity: i64, apex_y: i64) -> (r: (Vec2i, i64))
    requires
        simple_arc_ok(start, end, gravity as int, apex_y as int),
    ensures
        r.1 == simple_arc_duration(start, end, gravity as int, apex_y as int),
        2 <= r.1 <= TIME_LIMIT,
        r.0.y == gravity * simple_arc_rise(start, gravity as int, apex_y as int),
        r.0.x == div_tz(end.x - start.x, r.1 as int),
        0 <= r.0.y,
        r.0.y * r.1 <= PROD_LIMIT,
        mag(r.0.x as int) <= 2 * POS_LIMIT,
        mag(r.0.x as int) * r.1 <= PROD_LIMIT,
        gravity * r.1 * r.1 <= PROD_LIMIT,
{
    let h_up = apex_y - start.y;
    let h_dn = apex_y - end.y;
    proof {
        lemma_div_le_self(2 * h_up, gravity as int);
        lemma_div_le_self(2 * h_dn, gravity as int);
        lemma_div_at_least_one(2 * h_up, gravity as int);
        lemma_div_at_least_one(2 * h_dn, gravity as int);
    }
    let q_up = (((2 * h_up) as u64) / (gravity as u64)) as i64;
    let q_dn = (((2 * h_dn) as u64) / (gravity as u64)) as i64;
    let t_up = isqrt(q_up);
    let t_dn = isqrt(q_dn);
    proof {
        lemma_root_small(t_up as int, q_up as int, 0x2_0001);
        lemma_root_small(t_dn as int, q_dn as int, 0x2_0001);
        lemma_root_at_least_one(t_up as int, q_up as int);
        lemma_root_at_least_one(t_dn as int, q_dn as int);
        crate::math::lemma_mul_bound(gravity as int, t_up as int, RATE_LIMIT as int, 0x2_0000);
    }
    let total = t_up + t_dn;
    let vy = gravity * t_up;
    proof {
        crate::math::lemma_mul_bound(vy as int, total as int, 0x20_0000_0000, 0x4_0000);
        crate::math::lemma_mul_bound(gravity as int, total as int, RATE_LIMIT as int, 0x4_0000);
        crate::math::lemma_mul_bound(gravity as int * total as int, total as int, 0x40_0000_0000, 0x4_0000);
    }
    let vx = div_trunc(end.x - start.x, total);
    proof {
        crate::math::lemma_mul_bound(mag(vx as int), total as int, 2 * POS_LIMIT as int, 0x4_0000);
    }
    (Vec2i { x: vx, y: vy }, total)
}

/// `a / b <= a` for non-negative `a` and positive `b`.
proof fn lemma_div_le_self(a: int, b: int)
    requires
        0 <= a,
        1 <= b,
    ensures
        0 <= a / b <= a,
{
    vstd::arithmetic::div_mod::lemma_div_nonincreasing(a, b);
    vstd::arithmetic::div_mod::lemma_div_pos_is_pos(a, b);
}

/// `a / b >= 1` when `a >= b >= 1`.
proof fn lemma_div_at_least_one(a: int, b: int)
    requires
        1 <= b <= a,
    ensures
        a / b >= 1,
{
    vstd::arithmetic::div_mod::lemma_div_by_self(b);
    vstd::arithmetic::div_mod::lemma_div_is_ordered(b, a, b);
}

/// A square root is at least one when its radicand is.
proof fn lemma_root_at_least_one(r: int, q: int)
    by (nonlinear_arith)
    requires
        0 <= r,
        1 <= q,
        q < (r + 1) * (r + 1),
    ensures
        r >= 1,
{
}

/// A square root stays below `cap` when its square stays below `cap^2`.
proof fn lemma_root_small(r: int, q: int, cap: int)
    requires
        0 <= r,
        r * r <= q,
        q < cap * cap,
        0 < cap,
    ensures
        r < cap,
{
    if r >= cap {
        assert(cap * cap <= r * r) by (nonlinear_arith)
            requires
                0 < cap <= r,
        ;
    }
}

/// Launch accuracy of a solved simple arc: the flight lasts a positive
/// time, the ballistic formula starts exactly at the start point, and at
/// the solved duration it meets the end point — the horizontal miss is
/// below one tick's travel and the vertical miss below one gravity
/// quantum per tick of flight.
pub proof fn lemma_simple_arc_accuracy(start: Vec2i, end: Vec2i, g: int, apex: int)
    requires
        simple_arc_ok(start, end, g, apex),
    ensures
        simple_arc_duration(start, end, g, apex) >= 2,
        ({
            let u = simple_arc_rise(start, g, apex);
            let t = simple_arc_duration(start, end, g, apex);
            let vy = g * u;
            let vx = div_tz(end.x - start.x, t);
            &&& ballistic_x(start.x as int, vx, 0) == start.x
            &&& ballistic_y(start.y as int, vy, g, 0) == start.y
            &&& mag(ballistic_x(start.x as int, vx, t) - end.x) < t
            &&& mag(ballistic_y(start.y as int, vy, g, t) - end.y) <= g * (t + 1)
        }),
{
    let hu = apex - start.y;
    let hd = apex - end.y;
    let qu = (2 * hu) / g;
    let qd = (2 * hd) / g;
    lemma_div_le_self(2 * hu, g);
    lemma_div_le_self(2 * hd, g);
    lemma_div_at_least_one(2 * hu, g);
    lemma_div_at_least_one(2 * hd, g);
    lemma_div_bracket(2 * hu, g);
    lemma_div_bracket(2 * hd, g);
    let u = sqrt_floor(qu as nat) as int;
    let w = sqrt_floor(qd as nat) as int;
    crate::math::lemma_sqrt_floor_bounds(qu as nat);
    crate::math::lemma_sqrt_floor_bounds(qd as nat);
    assert(u * u <= qu < (u + 1) * (u + 1));
    assert(w * w <= qd < (w + 1) * (w + 1));
    let gu = g * u;
    let gw = g * w;
    let guu = g * (u * u);
    let gww = g * (w * w);
    assert(guu <= g * qu && g * qu <= guu + 2 * gu + g) by (nonlinear_arith)
        requires
            u * u <= qu,
            qu < (u + 1) * (u + 1),
            g >= 1,
            guu == g * (u * u),
            gu == g * u,
    ;
    assert(gww <= g * qd && g * qd <= gww + 2 * gw + g) by (nonlinear_arith)
        requires
            w * w <= qd,
            qd < (w + 1) * (w + 1),
            g >= 1,
            gww == g * (w * w),
            gw == g * w,
    ;
    assert(guu <= 2 * hu < guu + 2 * gu + g + g);
    assert(gww <= 2 * hd < gww + 2 * gw + g + g);
    let t = u + w;
    let vy = g * u;
    let n = g * t * t;
    let m = vy * t;
    let d = guu - gww;
    assert(2 * m - n == d) by (nonlinear_arith)
        requires
            vy == g * u,
            t == u + w,
            n == g * t * t,
            m == vy * t,
            d == g * (u * u) - g * (w * w),
            guu == g * (u * u),
            gww == g * (w * w),
    ;
    // the quantized half of the gravity term
    assert(n / 2 == m + (-d) / 2);
    assert((-d) / 2 == -((d + 1) / 2));
    let yend = ballistic_y(start.y as int, vy, g, t);
    assert(yend == start.y + (d + 1) / 2);
    let a = end.y - start.y;
    assert(hu - hd == a);
    // bracket the end height
    assert(d <= 2 * a + 2 * gw + 2 * g - 1);
    assert(d >= 2 * a - 2 * gu - 2 * g + 1);
    vstd::arithmetic::div_mod::lemma_div_is_ordered(d + 1, 2 * a + 2 * gw + 2 * g, 2);
    vstd::arithmetic::div_mod::lemma_div_is_ordered(2 * a - 2 * gu - 2 * g + 2, d + 1, 2);
    assert((2 * a + 2 * gw + 2 * g) / 2 == a + gw + g);
    assert((2 * a - 2 * gu - 2 * g + 2) / 2 == a - gu - g + 1);
    assert(a - gu - g + 1 <= (d + 1) / 2 <= a + gw + g);
    // both one-sided misses stay within a gravity quantum per tick
    assert(0 <= gu <= g * t && 0 <= gw <= g * t) by (nonlinear_arith)
        requires
            gu == g * u,
            gw == g * w,
            t == u + w,
            g >= 1,
            u >= 0,
            w >= 0,
    ;
    assert(g * (t + 1) == g * t + g) by (nonlinear_arith);
    assert(mag(yend - end.y) <= g * (t + 1));
    // the horizontal leg
    let vx = div_tz(end.x - start.x, t);
    lemma_root_at_least_one(u, qu);
    lemma_root_at_least_one(w, qd);
    lemma_div_tz_bracket(end.x - start.x, t);
    assert(t * vx == vx * t) by (nonlinear_arith);
    assert(mag(ballistic_x(start.x as int, vx, t) - end.x) < t);
}

/// Solve a simple arc and stamp it into a trajectory record starting at
/// time `now`.
pub fn solve_arc_trajectory(start: Vec2i, end: Vec2i, gravity: i64, apex_y: i64, now: i64) -> (t:
    Trajectory)
    requires
        simple_arc_ok(start, end, gravity as int, apex_y as int),
        0 <= now <= NOW_LIMIT,
    ensures
        t.wf(),
        t.start_pos == start,
        t.end_pos == end,
        t.gravity == gravity,
        t.start_time == now,
        t.end_time == now + simple_arc_duration(start, end, gravity as int, apex_y as int),
        t.start_vel.y == gravity * simple_arc_rise(start, gravity as int, apex_y as int),
        t.start_vel.x == div_tz(end.x - start.x, t.duration()),
        t.duration() >= 2,
{
    let (vel, total) = solve_simple_arc(start, end, gravity, apex_y);
    Trajectory {
        start_vel: vel,
        gravity,
        start_pos: start,
        end_pos: end,
        start_time: now,
        end_time: now + total,
    }
}

/// A two-phase return flight: a ballistic arc from the start down to the
/// water surface, stitched to an underwater deceleration that ends on the
/// target lane.
#[derive(Clone, Copy, Debug, PartialEq, Eq, Structural)]
pub struct ReturnTrajectory {
    pub start_vel: Vec2i,
    pub water_entrance_vel: Vec2i,
    pub start_pos: Vec2i,
    pub water_entrance_pos: Vec2i,
    pub end_pos: Vec2i,
    pub start_time: i64,
    pub water_entrance_time: i64,
    pub end_time: i64,
    pub gravity: i64,
    pub water_drag: i64,
}

/// Ticks the return flight spends underwater, decelerating from the
/// surface crossing down to the lane depth.
pub open spec fn return_water_ticks(water_y: int, end_y: int, wd: int) -> int {
    fall_ticks(wd, water_y - end_y)
}

/// Downward speed required at the surface crossing.
pub open spec fn return_entry_speed(water_y: int, end_y: int, wd: int) -> int {
    wd * return_water_ticks(water_y, end_y, wd)
}

/// Ticks from the apex down to the surface.
pub open spec fn return_fall_ticks(water_y: int, end_y: int, g: int, wd: int) -> int {
    return_entry_speed(water_y, end_y, wd) / g
}

/// Implied apex height of the return flight.
pub open spec fn return_apex(water_y: int, end_y: int, g: int, wd: int) -> int {
    let td = return_fall_ticks(water_y, end_y, g, wd);
    water_y + (g * td * td) / 2
}

/// Ticks from the start up to the apex.
pub open spec fn return_rise_ticks(start_y: int, water_y: int, end_y: int, g: int, wd: int) -> int {
    fall_ticks(g, return_apex(water_y, end_y, g, wd) - start_y)
}

/// Total ticks of the return flight.
pub open spec fn return_total_ticks(start_y: int, water_y: int, end_y: int, g: int, wd: int) -> int {
    return_rise_ticks(start_y, water_y, end_y, g, wd) + return_fall_ticks(water_y, end_y, g, wd)
        + return_water_ticks(water_y, end_y, wd)
}

/// Inputs the return-arc solver accepts: the target lies at least half a
/// drag quantum under the surface, the required entry speed stays within
/// the machine cap, and the implied apex sits at least half a gravity
/// quantum above the start.
pub open spec fn return_arc_ok(start: Vec2i, end: Vec2i, water_y: int, g: int, wd: int) -> bool {
    &&& 1 <= g <= RATE_LIMIT
    &&& 1 <= wd <= RATE_LIMIT
    &&& mag(start.x as int) <= POS_LIMIT
    &&& mag(start.y as int) <= POS_LIMIT
    &&& mag(end.x as int) <= POS_LIMIT
    &&& mag(end.y as int) <= POS_LIMIT
    &&& mag(water_y) <= POS_LIMIT
    &&& end.y < water_y
    &&& 2 * (water_y - end.y) >= wd
    &&& 2 * (water_y - end.y) * wd <= VEL_LIMIT * VEL_LIMIT
    &&& 2 * (return_apex(water_y, end.y as int, g, wd) - start.y) >= g
}

impl ReturnTrajectory {
    /// Ticks spent in the air.
    pub open spec fn air_duration(self) -> int {
        self.water_entrance_time - self.start_time
    }

    /// Ticks spent underwater.
    pub open spec fn wet_duration(self) -> int {
        self.end_time - self.water_entrance_time
    }

    /// Well-formedness: every bound the two position formulas need in
    /// order to stay inside `i64`.
    pub open spec fn wf(self) -> bool {
        &&& 1 <= self.gravity <= RATE_LIMIT
        &&& 1 <= self.water_drag <= RATE_LIMIT
        &&& 0 <= self.start_time <= self.water_entrance_time <= self.end_time <= TIME_ABS_LIMIT
        &&& self.end_time - self.start_time <= TIME_LIMIT
        &&& mag(self.start_pos.x as int) <= COORD_LIMIT
        &&& mag(self.start_pos.y as int) <= COORD_LIMIT
        &&& mag(self.water_entrance_pos.x as int) <= COORD_LIMIT
        &&& mag(self.water_entrance_pos.y as int) <= COORD_LIMIT
        &&& mag(self.end_pos.x as int) <= COORD_LIMIT
        &&& mag(self.end_pos.y as int) <= COORD_LIMIT
        &&& 0 <= self.start_vel.y
        &&& self.start_vel.y * self.air_duration() <= PROD_LIMIT
        &&& mag(self.start_vel.x as int) * self.air_duration() <= PROD_LIMIT
        &&& self.gravity * self.air_duration() * self.air_duration() <= PROD_LIMIT
        &&& self.water_entrance_vel.x == self.start_vel.x
        &&& self.water_entrance_vel.y <= 0
        &&& mag(self.water_entrance_vel.x as int) * self.wet_duration() <= PROD_LIMIT
        &&& mag(self.water_entrance_vel.y as int) * self.wet_duration() <= PROD_LIMIT
        &&& self.water_drag * self.wet_duration() * self.wet_duration() <= PROD_LIMIT
    }

    /// The point the flight passes through `elapsed` ticks after launch,
    /// while still above the water.
    pub fn position_in_air(&self, elapsed: i64) -> (p: Vec2i)
        requires
            self.wf(),
            0 <= elapsed <= self.air_duration(),
        ensures
            p.x == ballistic_x(self.start_pos.x as int, self.start_vel.x as int, elapsed as int),
            p.y == ballistic_y(
                self.start_pos.y as int,
                self.start_vel.y as int,
                self.gravity as int,
                elapsed as int,
            ),
    {
        proof {
            lemma_eval_products(
                self.start_vel.x as int,
                self.start_vel.y as int,
                self.gravity as int,
                elapsed as int,
                self.air_duration(),
            );
        }
        let dx = self.start_vel.x * elapsed;
        let dy = self.start_vel.y * elapsed;
        let gt = self.gravity * elapsed;
        let gtt = gt * elapsed;
        let half = ((gtt as u64) / 2u64) as i64;
        Vec2i {
            x: self.start_pos.x + dx,
            y: self.start_pos.y + dy - half,
        }
    }

    /// The point the flight passes through `elapsed` ticks after the
    /// surface crossing, decelerating under water drag.
    pub fn position_underwater(&self, elapsed: i64) -> (p: Vec2i)
        requires
            self.wf(),
            0 <= elapsed <= self.wet_duration(),
        ensures
            p.x == ballistic_x(
                self.water_entrance_pos.x as int,
                self.water_entrance_vel.x as int,
                elapsed as int,
            ),
            p.y == submerged_y(
                self.water_entrance_pos.y as int,
                self.water_entrance_vel.y as int,
                self.water_drag as int,
                elapsed as int,
            ),
    {
        proof {
            lemma_eval_products(
                self.water_entrance_vel.x as int,
                -(self.water_entrance_vel.y as int),
                self.water_drag as int,
                elapsed as int,
                self.wet_duration(),
            );
            assert(-(self.water_entrance_vel.y as int) * elapsed == -(self.water_entrance_vel.y
                as int * elapsed)) by (nonlinear_arith);
        }
        let dx = self.water_entrance_vel.x * elapsed;
        let dy = self.water_entrance_vel.y * elapsed;
        let dt = self.water_drag * elapsed;
        let dtt = dt * elapsed;
        let half = ((dtt as u64) / 2u64) as i64;
        Vec2i {
            x: self.water_entrance_pos.x + dx,
            y: self.water_entrance_pos.y + dy + half,
        }
    }
}

/// Quantized vertical flight identity: launching upward at `g * u` and
/// flying `u + w` ticks lands `ceil((g*u^2 - g*w^2) / 2)` above the
/// start.
proof fn lemma_ballistic_span(sy: int, g: int, u: int, w: int)
    ensures
        ballistic_y(sy, g * u, g, u + w) == sy + (g * (u * u) - g * (w * w) + 1) / 2,
{
    let t = u + w;
    let vy = g * u;
    let n = g * t * t;
    let m = vy * t;
    let d = g * (u * u) - g * (w * w);
    assert(2 * m - n == d) by (nonlinear_arith)
        requires
            vy == g * u,
            t == u + w,
            n == g * t * t,
            m == vy * t,
            d == g * (u * u) - g * (w * w),
    ;
    assert(n / 2 == m + (-d) / 2);
    assert((-d) / 2 == -((d + 1) / 2));
}

/// Continuity and landing accuracy of a solved return flight (the heart
/// of the backward derivation): the air formula reaches the stored
/// surface-entrance point to within the quantization slack, never
/// overshooting above the surface; the underwater formula starts exactly
/// at the entrance, ends exactly on the target abscissa, and sets down
/// on the lane depth to within one drag quantum per tick.
pub proof fn lemma_return_arc_continuity(start: Vec2i, end: Vec2i, water_y: int, g: int, wd: int)
    requires
        return_arc_ok(start, end, water_y, g, wd),
    ensures
        ({
            let sy = start.y as int;
            let ey = end.y as int;
            let tw = return_water_ticks(water_y, ey, wd);
            let ve = return_entry_speed(water_y, ey, wd);
            let td = return_fall_ticks(water_y, ey, g, wd);
            let u = return_rise_ticks(sy, water_y, ey, g, wd);
            let ta = u + td;
            let t = ta + tw;
            let vy = g * u;
            let vx = div_tz(end.x - start.x, t);
            let wx = end.x - tw * vx;
            &&& ballistic_x(start.x as int, vx, 0) == start.x
            &&& ballistic_y(sy, vy, g, 0) == sy
            &&& mag(ballistic_x(start.x as int, vx, ta) - wx) < t
            &&& -(g * (ta + 1)) <= ballistic_y(sy, vy, g, ta) - water_y <= 0
            &&& ballistic_x(wx, vx, tw) == end.x
            &&& submerged_y(water_y, -ve, wd, 0) == water_y
            &&& 0 <= submerged_y(water_y, -ve, wd, tw) - ey <= wd * (tw + 1)
        }),
{
    let sy = start.y as int;
    let ey = end.y as int;
    let tw = return_water_ticks(water_y, ey, wd);
    let ve = return_entry_speed(water_y, ey, wd);
    let td = return_fall_ticks(water_y, ey, g, wd);
    let apex = return_apex(water_y, ey, g, wd);
    let u = return_rise_ticks(sy, water_y, ey, g, wd);
    let ta = u + td;
    let t = ta + tw;
    let vy = g * u;
    let vx = div_tz(end.x - start.x, t);
    let wx = end.x - tw * vx;

    // the underwater leg
    let hw = water_y - ey;
    let qw = (2 * hw) / wd;
    lemma_div_le_self(2 * hw, wd);
    lemma_div_at_least_one(2 * hw, wd);
    lemma_div_bracket(2 * hw, wd);
    crate::math::lemma_sqrt_floor_bounds(qw as nat);
    assert(tw * tw <= qw < (tw + 1) * (tw + 1));
    let x = wd * (tw * tw);
    assert(x <= wd * qw && wd * qw <= x + 2 * (wd * tw) + wd) by (nonlinear_arith)
        requires
            tw * tw <= qw,
            qw < (tw + 1) * (tw + 1),
            wd >= 1,
            x == wd * (tw * tw),
    ;
    assert(x <= 2 * hw < x + 2 * (wd * tw) + 2 * wd);
    assert(ve * tw == x) by (nonlinear_arith)
        requires
            ve == wd * tw,
            x == wd * (tw * tw),
    ;
    assert(wd * tw * tw == x) by (nonlinear_arith)
        requires
            x == wd * (tw * tw),
    ;
    lemma_root_at_least_one(tw, qw);
    assert((-ve) * tw == -x) by (nonlinear_arith)
        requires
            ve * tw == x,
    ;
    let ywet = submerged_y(water_y, -ve, wd, tw);
    assert(ywet == water_y - x + x / 2);
    assert(x / 2 == x - (x + 1) / 2);
    assert(ywet == water_y - (x + 1) / 2);
    vstd::arithmetic::div_mod::lemma_div_is_ordered(x + 1, 2 * hw + 1, 2);
    vstd::arithmetic::div_mod::lemma_div_is_ordered(2 * hw - 2 * (wd * tw) - 2 * wd + 2, x + 1, 2);
    assert((2 * hw + 1) / 2 == hw);
    assert((2 * hw - 2 * (wd * tw) - 2 * wd + 2) / 2 == hw - wd * tw - wd + 1);
    assert(0 <= ywet - ey <= wd * tw + wd - 1);
    assert(wd * (tw + 1) == wd * tw + wd) by (nonlinear_arith);
    assert(submerged_y(water_y, -ve, wd, 0) == water_y);

    // the rise leg, measured from the implied apex
    let ha = apex - sy;
    let qa = (2 * ha) / g;
    lemma_div_le_self(2 * ha, g);
    lemma_div_at_least_one(2 * ha, g);
    lemma_div_bracket(2 * ha, g);
    crate::math::lemma_sqrt_floor_bounds(qa as nat);
    assert(u * u <= qa < (u + 1) * (u + 1));
    let guu = g * (u * u);
    let gu = g * u;
    assert(guu <= g * qa && g * qa <= guu + 2 * gu + g) by (nonlinear_arith)
        requires
            u * u <= qa,
            qa < (u + 1) * (u + 1),
            g >= 1,
            guu == g * (u * u),
            gu == g * u,
    ;
    assert(guu <= 2 * ha < guu + 2 * gu + 2 * g);

    // the descent leg ties the apex to the entry speed
    assert(ve >= 1) by (nonlinear_arith)
        requires
            ve == wd * tw,
            wd >= 1,
            tw >= 1,
    ;
    lemma_div_le_self(ve, g);
    let gtdtd = g * (td * td);
    let ad2 = (g * td * td) / 2;
    assert(g * td * td == gtdtd) by (nonlinear_arith)
        requires
            gtdtd == g * (td * td),
    ;
    assert(gtdtd >= 0) by (nonlinear_arith)
        requires
            g >= 1,
            td >= 0,
            gtdtd == g * (td * td),
    ;
    assert(2 * ad2 <= gtdtd <= 2 * ad2 + 1);
    assert(apex == water_y + ad2);

    // stitch: the quantized drop identity
    lemma_ballistic_span(sy, g, u, td);
    let dd = guu - gtdtd;
    assert(ballistic_y(sy, vy, g, ta) == sy + (dd + 1) / 2);
    assert(2 * ha - 2 * ad2 == 2 * (water_y - sy));
    assert(dd <= 2 * (water_y - sy));
    assert(dd >= 2 * (water_y - sy) - 2 * gu - 2 * g);
    vstd::arithmetic::div_mod::lemma_div_is_ordered(dd + 1, 2 * (water_y - sy) + 1, 2);
    vstd::arithmetic::div_mod::lemma_div_is_ordered(2 * (water_y - sy) - 2 * gu - 2 * g + 1, dd + 1, 2);
    assert((2 * (water_y - sy) + 1) / 2 == water_y - sy);
    assert((2 * (water_y - sy) - 2 * gu - 2 * g + 1) / 2 == water_y - sy - gu - g);
    assert(-(gu + g) <= ballistic_y(sy, vy, g, ta) - water_y <= 0);
    assert(0 <= gu <= g * ta && g * (ta + 1) == g * ta + g) by (nonlinear_arith)
        requires
            gu == g * u,
            ta == u + td,
            g >= 1,
            u >= 0,
            td >= 0,
    ;
    // the horizontal legs
    assert(t >= 1);
    lemma_div_tz_bracket(end.x - start.x, t);
    assert(vx * ta + tw * vx == vx * t && t * vx == vx * t) by (nonlinear_arith)
        requires
            t == ta + tw,
    ;
    assert(mag(ballistic_x(start.x as int, vx, ta) - wx) < t);
    assert(vx * tw == tw * vx) by (nonlinear_arith);
    assert(ballistic_x(wx, vx, tw) == end.x);
}

/// The solved horizontal speed, times any sub-span of the flight, stays
/// within the ground distance plus one tick's worth of slack.
proof fn lemma_vx_span(a: int, total: int, vx: int, span: int)
    requires
        1 <= total,
        0 <= span <= total,
        vx == div_tz(a, total),
    ensures
        0 <= mag(vx) * span <= mag(a) + total,
        mag(vx * span) == mag(vx) * span,
{
    lemma_div_tz_bracket(a, total);
    assert(mag(total * vx) <= mag(a) + mag(a - total * vx));
    assert(mag(total * vx) == mag(vx) * total) by (nonlinear_arith)
        requires
            total >= 1,
    ;
    assert(0 <= mag(vx) * span <= mag(vx) * total) by (nonlinear_arith)
        requires
            0 <= span <= total,
            0 <= mag(vx),
    ;
    assert(mag(vx * span) == mag(vx) * span) by (nonlinear_arith)
        requires
            span >= 0,
    ;
}

/// Solve the two-phase return flight backward from its boundary
/// conditions: first the underwater leg (how long, and how fast at the
/// surface crossing, to decelerate exactly onto the lane), then the
/// descent from the implied apex, then the rise from the start to that
/// apex.  The horizontal speed covers the ground uniformly over all
/// three legs.
pub fn solve_return_arc(
    start: Vec2i,
    end: Vec2i,
    water_y: i64,
    gravity: i64,
    water_drag: i64,
    now: i64,
) -> (rt: ReturnTrajectory)
    requires
        return_arc_ok(start, end, water_y as int, gravity as int, water_drag as int),
        0 <= now <= NOW_LIMIT,
    ensures
        rt.wf(),
        rt.start_pos == start,
        rt.end_pos == end,
        rt.gravity == gravity,
        rt.water_drag == water_drag,
        rt.start_time == now,
        rt.water_entrance_pos.y == water_y,
        ({
            let sy = start.y as int;
            let wy = water_y as int;
            let ey = end.y as int;
            let g = gravity as int;
            let wd = water_drag as int;
            let tw = return_water_ticks(wy, ey, wd);
            let td = return_fall_ticks(wy, ey, g, wd);
            let u = return_rise_ticks(sy, wy, ey, g, wd);
            let t = return_total_ticks(sy, wy, ey, g, wd);
            &&& rt.water_entrance_time == now + u + td
            &&& rt.end_time == now + t
            &&& rt.air_duration() == u + td
            &&& rt.wet_duration() == tw
            &&& rt.start_vel.y == g * u
            &&& rt.start_vel.x == div_tz(end.x - start.x, t)
            &&& rt.water_entrance_vel.y == -return_entry_speed(wy, ey, wd)
            &&& rt.water_entrance_pos.x == end.x - tw * rt.start_vel.x
            &&& t >= 1
        }),
{
    let ghost sy = start.y as int;
    let ghost wy = water_y as int;
    let ghost ey = end.y as int;
    let ghost g = gravity as int;
    let ghost wd = water_drag as int;

    // underwater leg: time and entry speed to decelerate onto the lane
    let h_w = water_y - end.y;
    proof {
        lemma_div_le_self(2 * h_w, wd);
        lemma_div_at_least_one(2 * h_w, wd);
    }
    let q_w = (((2 * h_w) as u64) / (water_drag as u64)) as i64;
    let t_w = isqrt(q_w);
    proof {
        lemma_root_small(t_w as int, q_w as int, 0x2_0001);
        lemma_root_at_least_one(t_w as int, q_w as int);
        lemma_div_bracket(2 * h_w, wd);
        crate::math::lemma_mul_bound(wd, t_w as int, RATE_LIMIT as int, 0x2_0000);
    }
    let ve = water_drag * t_w;
    proof {
        assert(ve * ve <= VEL_LIMIT * VEL_LIMIT) by (nonlinear_arith)
            requires
                ve == wd * t_w,
                t_w as int * t_w as int <= q_w,
                wd * q_w <= 2 * h_w,
                2 * h_w * wd <= VEL_LIMIT * VEL_LIMIT,
                wd >= 1,
                t_w >= 0,
                q_w >= 0,
        ;
        lemma_root_small(ve as int, ve as int * ve as int, VEL_LIMIT as int + 1);
        assert(ve >= 1) by (nonlinear_arith)
            requires
                ve == wd * t_w,
                wd >= 1,
                t_w >= 1,
        ;
    }

    // descent leg: time from the apex to the surface at that speed
    let t_d = ((ve as u64) / (gravity as u64)) as i64;
    proof {
        lemma_div_le_self(ve as int, g);
        lemma_div_bracket(ve as int, g);
    }
    let gtd = gravity * t_d;
    proof {
        assert(gtd <= ve);
        crate::math::lemma_mul_bound(gtd as int, t_d as int, VEL_LIMIT as int, VEL_LIMIT as int);
    }
    let gtdtd = gtd * t_d;
    let ad2 = ((gtdtd as u64) / 2u64) as i64;
    let apex = water_y + ad2;
    proof {
        assert(apex == return_apex(wy, ey, g, wd));
    }

    // rise leg: time from the start up to the apex
    let h_a = apex - start.y;
    proof {
        lemma_div_le_self(2 * h_a, g);
        lemma_div_at_least_one(2 * h_a, g);
    }
    let q_a = (((2 * h_a) as u64) / (gravity as u64)) as i64;
    let t_u = isqrt(q_a);
    proof {
        lemma_root_small(t_u as int, q_a as int, 0x1000_0000);
        lemma_root_at_least_one(t_u as int, q_a as int);
    }
    let t_air = t_u + t_d;
    let total = t_air + t_w;
    proof {
        crate::math::lemma_mul_bound(g, t_u as int, RATE_LIMIT as int, 0x1000_0000);
    }
    let vy = gravity * t_u;
    proof {
        lemma_div_bracket(2 * h_a, g);
        assert(vy * vy <= g * (2 * h_a)) by (nonlinear_arith)
            requires
                vy == g * t_u,
                t_u as int * t_u as int <= q_a,
                g * q_a <= 2 * h_a,
                g >= 1,
                t_u >= 0,
                q_a >= 0,
        ;
        assert(g * (2 * h_a) == 2 * (g * (wy - sy)) + 2 * (g * ad2)) by (nonlinear_arith)
            requires
                h_a == wy + ad2 - sy,
        ;
        assert(g * (wy - sy) <= 0x20_0000_0000_0000) by (nonlinear_arith)
            requires
                1 <= g <= 0x10_0000,
                wy - sy <= 0x2_0000_0000,
        ;
        assert(2 * (g * ad2) <= ve * ve) by (nonlinear_arith)
            requires
                0 <= 2 * ad2 <= gtdtd,
                gtdtd == gtd * t_d,
                gtd == g * t_d,
                0 <= gtd <= ve,
                g >= 1,
                t_d >= 0,
        ;
        lemma_root_small(vy as int, vy as int * vy as int, 0x1000_0000);
        crate::math::lemma_mul_bound(vy as int, t_air as int, 0x1000_0000, 0x2000_0000);
        // gravity times the squared air time stays within the cap
        assert(g * t_air * t_air <= 2 * (g * (t_u as int * t_u as int)) + 2 * (g * (t_d as int
            * t_d as int))) by (nonlinear_arith)
            requires
                t_air == t_u + t_d,
                g >= 1,
                t_u >= 0,
                t_d >= 0,
        ;
        assert(g * (t_u as int * t_u as int) <= 2 * h_a) by (nonlinear_arith)
            requires
                t_u as int * t_u as int <= q_a,
                g * q_a <= 2 * h_a,
                g >= 1,
                q_a >= 0,
        ;
        assert(g * (t_d as int * t_d as int) <= ve * t_d) by (nonlinear_arith)
            requires
                gtd == g * t_d,
                0 <= gtd <= ve,
                t_d >= 0,
        ;
        crate::math::lemma_mul_bound(ve as int, t_d as int, VEL_LIMIT as int, VEL_LIMIT as int);
        crate::math::lemma_mul_bound(ve as int, t_w as int, VEL_LIMIT as int, 0x2_0000);
        // water drag times the squared wet time stays within the cap
        assert(wd * t_w as int * t_w as int <= wd * q_w) by (nonlinear_arith)
            requires
                t_w as int * t_w as int <= q_w,
                wd >= 1,
                q_w >= 0,
        ;
    }
    let vx = div_trunc(end.x - start.x, total);
    proof {
        lemma_vx_span(end.x - start.x as int, total as int, vx as int, total as int);
        lemma_vx_span(end.x - start.x as int, total as int, vx as int, t_air as int);
        lemma_vx_span(end.x - start.x as int, total as int, vx as int, t_w as int);
    }
    proof {
        assert(t_w as int * vx as int == vx as int * t_w as int) by (nonlinear_arith);
    }
    let wdist = t_w * vx;
    let wx = end.x - wdist;
    ReturnTrajectory {
        start_vel: Vec2i { x: vx, y: vy },
        water_entrance_vel: Vec2i { x: vx, y: -ve },
        start_pos: start,
        water_entrance_pos: Vec2i { x: wx, y: water_y },
        end_pos: end,
        start_time: now,
        water_entrance_time: now + t_air,
        end_time: now + total,
        gravity,
        water_drag,
    }
}

} // verus!
