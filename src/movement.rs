//! The movement controller: turns an actor's target speed into a change of
//! velocity for one tick, and decides how the actor turns toward where it
//! is going. Players and pursuers share it.
use vstd::prelude::*;
use crate::geometry::{
    Vec2, Rotation, UNIT, abs, div_toward_zero, div_ceil, norm_sq, within_unit, floor_sqrt,
    floor_sqrt_of, is_floor_sqrt, lemma_floor_sqrt_exists,
};
use crate::timing::MICROS_PER_SECOND;

verus! {

/// Largest speed along either axis, in steps per second; faster motion
/// saturates there.
pub const VELOCITY_LIMIT: i64 = 1_099_511_627_776;

/// Fixed-point scale of the ratio `|impulse|` in the response curve.
pub const RATIO_SCALE: u64 = 1_000_000;

/// Angular velocity, in radians per second, of an actor turning toward its
/// target direction.
pub const TURN_RATE: i32 = 20;

/// `cos²(0.1)` in billionths: actors within 0.1 radians of their target
/// heading stop turning and face it.
pub const ALIGNED_COS_SQ: i128 = 990_033_289;

/// A velocity in steps per second.
#[derive(Clone, Copy, Debug, PartialEq, Eq, Structural)]
pub struct Velocity {
    pub x: i64,
    pub y: i64,
}

/// Movement parameters of an actor. `target_speed` is the wanted velocity
/// as a fraction of `max_speed`, of length at most `UNIT`; `max_speed` is
/// in steps per second and `impulse_coefficient` in steps per second
/// squared.
#[derive(Clone, Copy, Debug, PartialEq, Eq, Structural)]
pub struct MoveController {
    pub target_speed: Vec2,
    pub max_speed: u32,
    pub impulse_exponent: u32,
    pub impulse_coefficient: u32,
}

impl MoveController {
    /// The target speed is of magnitude at most one and the top speed is
    /// positive.
    pub open spec fn wf(&self) -> bool {
        &&& within_unit(self.target_speed)
        &&& self.max_speed > 0
    }

    /// A controller at rest with a top speed of 10 units per second, a
    /// response exponent of 4 and an impulse coefficient of 200 units per
    /// second squared.
    pub fn default() -> (r: MoveController)
        ensures
            r.wf(),
            r.target_speed == (Vec2 { x: 0, y: 0 }),
            r.max_speed == 10 * UNIT,
            r.impulse_exponent == 4,
            r.impulse_coefficient == 200 * UNIT,
    {
        MoveController {
            target_speed: Vec2 { x: 0, y: 0 },
            max_speed: 10_000,
            impulse_exponent: 4,
            impulse_coefficient: 200_000,
        }
    }
}

/// Both components of the velocity are within `VELOCITY_LIMIT`.
pub open spec fn velocity_ok(v: Velocity) -> bool {
    -VELOCITY_LIMIT <= v.x <= VELOCITY_LIMIT && -VELOCITY_LIMIT <= v.y <= VELOCITY_LIMIT
}

/// The velocity the controller aims at: `max_speed * target_speed`.
pub open spec fn goal_velocity(c: MoveController) -> Velocity {
    Velocity {
        x: div_toward_zero(c.max_speed * c.target_speed.x, UNIT as int) as i64,
        y: div_toward_zero(c.max_speed * c.target_speed.y, UNIT as int) as i64,
    }
}

/// The impulse `goal - v`, in steps per second.
pub open spec fn impulse_x(c: MoveController, v: Velocity) -> int {
    goal_velocity(c).x - v.x
}

/// See `impulse_x`.
pub open spec fn impulse_y(c: MoveController, v: Velocity) -> int {
    goal_velocity(c).y - v.y
}

/// Squared length of the impulse.
pub open spec fn impulse_sq(c: MoveController, v: Velocity) -> int {
    norm_sq(impulse_x(c, v), impulse_y(c, v))
}

/// The impulse is shorter than 0.4 of the top speed: the velocity snaps to
/// the goal.
pub open spec fn snaps(c: MoveController, v: Velocity) -> bool {
    25 * impulse_sq(c, v) < 4 * (c.max_speed * c.max_speed)
}

/// `(r / RATIO_SCALE)^k`, in units of `1 / RATIO_SCALE`, rounding up at each
/// factor.
pub open spec fn ratio_power(r: int, k: nat) -> int
    decreases k,
{
    if k == 0 {
        RATIO_SCALE as int
    } else {
        div_ceil(ratio_power(r, (k - 1) as nat) * r, RATIO_SCALE as int)
    }
}

/// The response factor, in units of `1 / RATIO_SCALE`: `m^impulse_exponent`
/// for an impulse of relative size `m = |impulse| / max_speed` up to one,
/// and one beyond.
pub open spec fn response(c: MoveController, v: Velocity) -> int {
    let n = impulse_sq(c, v);
    if n > c.max_speed * c.max_speed {
        RATIO_SCALE as int
    } else {
        ratio_power(floor_sqrt_of(n) * RATIO_SCALE / (c.max_speed as int), c.impulse_exponent as nat)
    }
}

/// The change of one velocity component: `dt * impulse_coefficient` times
/// the response, along the unit impulse direction, rounded away from zero.
/// `push` is `dt * impulse_coefficient` in steps per second times
/// microseconds and `l` the length of the impulse, rounded down.
pub open spec fn kick(d: int, push: int, p: int, l: int) -> int {
    let k = div_ceil(abs(d) * push * p, MICROS_PER_SECOND * RATIO_SCALE * l);
    if d < 0 { -k } else { k }
}

/// `a` held within `VELOCITY_LIMIT`.
pub open spec fn saturate(a: int) -> int {
    if a < -VELOCITY_LIMIT { -VELOCITY_LIMIT as int } else if a > VELOCITY_LIMIT { VELOCITY_LIMIT as int } else { a }
}

/// The velocity after one tick of `dt` microseconds.
pub open spec fn movement_velocity(c: MoveController, v: Velocity, dt: u32) -> Velocity {
    if snaps(c, v) {
        goal_velocity(c)
    } else {
        let push = dt * c.impulse_coefficient;
        let p = response(c, v);
        let l = floor_sqrt_of(impulse_sq(c, v));
        Velocity {
            x: saturate(v.x + kick(impulse_x(c, v), push, p, l)) as i64,
            y: saturate(v.y + kick(impulse_y(c, v), push, p, l)) as i64,
        }
    }
}

/// Once the value repeats, the power stays put.
proof fn lemma_ratio_power_settles(r: int, k: nat, m: nat)
    requires
        ratio_power(r, k + 1) == ratio_power(r, k),
        k <= m,
    ensures
        ratio_power(r, m) == ratio_power(r, k),
    decreases m - k,
{
    if k < m {
        lemma_ratio_power_settles(r, k, (m - 1) as nat);
        assert(ratio_power(r, m) == div_ceil(ratio_power(r, (m - 1) as nat) * r, RATIO_SCALE as int));
    }
}

/// The power lies between one and `RATIO_SCALE`, and from the first factor
/// on at most the ratio itself.
proof fn lemma_ratio_power_bounds(r: int, k: nat)
    requires
        1 <= r <= RATIO_SCALE,
    ensures
        1 <= ratio_power(r, k) <= RATIO_SCALE,
        k >= 1 ==> ratio_power(r, k) <= r,
    decreases k,
{
    if k > 0 {
        lemma_ratio_power_bounds(r, (k - 1) as nat);
        let q = ratio_power(r, (k - 1) as nat);
        assert(q * r <= q * 1_000_000) by (nonlinear_arith) requires q >= 1, r <= 1_000_000;
        assert(q * r <= 1_000_000 * r) by (nonlinear_arith) requires q <= 1_000_000, r >= 1;
        assert(q * r >= 1) by (nonlinear_arith) requires q >= 1, r >= 1;
        assert(div_ceil(q * r, 1_000_000) <= q) by (nonlinear_arith) requires q * r <= q * 1_000_000, q >= 1;
        assert(div_ceil(q * r, 1_000_000) <= r) by (nonlinear_arith) requires q * r <= 1_000_000 * r, r >= 1;
        assert(div_ceil(q * r, 1_000_000) >= 1) by (nonlinear_arith) requires q * r >= 1;
    }
}

/// `ratio_power(r, k)`, stopping early once the value repeats.
fn ratio_power_exec(r: u64, k: u32) -> (p: u64)
    requires
        1 <= r <= RATIO_SCALE,
    ensures
        p == ratio_power(r as int, k as nat),
{
    let mut p: u64 = RATIO_SCALE;
    let mut i: u32 = 0;
    proof { lemma_ratio_power_bounds(r as int, 0); }
    while i < k
        invariant
            1 <= r <= RATIO_SCALE,
            i <= k,
            p == ratio_power(r as int, i as nat),
        decreases k - i,
    {
        proof { lemma_ratio_power_bounds(r as int, i as nat); }
        assert(p * r <= 1_000_000_000_000) by (nonlinear_arith) requires p <= 1_000_000, r <= 1_000_000;
        let next: u64 = (p * r + (RATIO_SCALE - 1)) / RATIO_SCALE;
        assert(next == ratio_power(r as int, (i + 1) as nat));
        if next == p {
            proof { lemma_ratio_power_settles(r as int, i as nat, k as nat); }
            return p;
        }
        p = next;
        i += 1;
    }
    p
}

/// `max * t / UNIT`, rounded toward zero.
fn goal_component(max: u32, t: i32) -> (r: i64)
    requires
        t * t <= UNIT * UNIT,
    ensures
        r == div_toward_zero(max * t, UNIT as int),
        abs(r as int) <= max,
{
    assert(-1000 <= t <= 1000) by (nonlinear_arith) requires t * t <= 1_000_000;
    let m: i64 = max as i64;
    let a: i64 = if t < 0 { -(t as i64) } else { t as i64 };
    assert(m * a <= 0x1_0000_0000 * 1000) by (nonlinear_arith) requires 0 <= m < 0x1_0000_0000, 0 <= a <= 1000;
    let q: i64 = m * a / 1000;
    assert(q <= m) by (nonlinear_arith) requires q == m * a / 1000, 0 <= a <= 1000, m >= 0;
    if t < 0 {
        assert(max * t == -(m * a)) by (nonlinear_arith) requires m == max, a == -t;
        -q
    } else {
        q
    }
}

/// `kick(d, push, p, l)`.
fn kick_exec(d: i64, push: u128, p: u64, l: u128) -> (r: i128)
    requires
        -0x200_0000_0000 <= d <= 0x200_0000_0000,
        push <= 0xFFFF_FFFF_FFFF_FFFF,
        p <= RATIO_SCALE,
        1 <= l <= 0x800_0000_0000,
    ensures
        r == kick(d as int, push as int, p as int, l as int),
        abs(r as int) <= 0x4000_0000_0000_0000_0000_0000_0000_0000,
{
    let a: u128 = if d < 0 { (-d) as u128 } else { d as u128 };
    assert(a * push <= 0x200_0000_0000 * 0xFFFF_FFFF_FFFF_FFFF) by (nonlinear_arith)
        requires a <= 0x200_0000_0000, push <= 0xFFFF_FFFF_FFFF_FFFF;
    assert(a * push * p <= 0x200_0000_0000 * 0xFFFF_FFFF_FFFF_FFFF * 1_000_000) by (nonlinear_arith)
        requires a * push <= 0x200_0000_0000 * 0xFFFF_FFFF_FFFF_FFFF, p <= 1_000_000;
    let num: u128 = a * push * (p as u128);
    let den: u128 = 1_000_000_000_000 * l;
    let k: u128 = (num + den - 1) / den;
    assert(k <= num + den) by (nonlinear_arith) requires k == (num + den - 1) / (den as int), den >= 1, num >= 0;
    assert(den <= 1_000_000_000_000 * 0x800_0000_0000);
    if d < 0 {
        -(k as i128)
    } else {
        k as i128
    }
}

/// Holds a velocity component within `VELOCITY_LIMIT`.
fn saturate_exec(a: i128) -> (r: i64)
    ensures
        r == saturate(a as int),
{
    if a < -(VELOCITY_LIMIT as i128) {
        -VELOCITY_LIMIT
    } else if a > VELOCITY_LIMIT as i128 {
        VELOCITY_LIMIT
    } else {
        a as i64
    }
}

/// Past the snapping distance the impulse's length is positive and its ratio
/// to the top speed, in units of `1 / RATIO_SCALE`, at least one.
proof fn lemma_ratio_positive(n: int, l: int, max: int)
    requires
        is_floor_sqrt(n, l),
        25 * n >= 4 * (max * max),
        max >= 1,
    ensures
        l >= 1,
        l * RATIO_SCALE >= max,
{
    assert(5 * (l + 1) > 2 * max) by (nonlinear_arith)
        requires n < (l + 1) * (l + 1), 25 * n >= 4 * (max * max), max >= 1, l >= 0;
    assert(l >= 1) by (nonlinear_arith) requires l * l <= n, n < (l + 1) * (l + 1), 25 * n >= 4 * (max * max), max >= 1, l >= 0;
}

/// The velocity after one tick of `dt` microseconds: the goal velocity when
/// the impulse is below 0.4 of the top speed, and otherwise the velocity
/// moved along the impulse by `dt * impulse_coefficient` times
/// `m^impulse_exponent` (times one when `m` exceeds one), where `m` is the
/// impulse relative to the top speed.
pub fn next_velocity(c: &MoveController, v: Velocity, dt: u32) -> (r: Velocity)
    requires
        c.wf(),
        velocity_ok(v),
    ensures
        r == movement_velocity(*c, v, dt),
        velocity_ok(r),
{
    assert(c.target_speed.x * c.target_speed.x <= 1_000_000 && c.target_speed.y * c.target_speed.y <= 1_000_000)
        by (nonlinear_arith)
        requires c.target_speed.x * c.target_speed.x + c.target_speed.y * c.target_speed.y <= 1_000_000;
    let gx = goal_component(c.max_speed, c.target_speed.x);
    let gy = goal_component(c.max_speed, c.target_speed.y);
    let dx: i64 = gx - v.x;
    let dy: i64 = gy - v.y;
    let ax: u128 = if dx < 0 { (-dx) as u128 } else { dx as u128 };
    let ay: u128 = if dy < 0 { (-dy) as u128 } else { dy as u128 };
    assert(ax * ax <= 0x200_0000_0000 * 0x200_0000_0000) by (nonlinear_arith) requires ax <= 0x200_0000_0000;
    assert(ay * ay <= 0x200_0000_0000 * 0x200_0000_0000) by (nonlinear_arith) requires ay <= 0x200_0000_0000;
    let n: u128 = ax * ax + ay * ay;
    assert(n == impulse_sq(*c, v)) by (nonlinear_arith)
        requires ax == abs(dx as int), ay == abs(dy as int), n == ax * ax + ay * ay,
            dx == impulse_x(*c, v), dy == impulse_y(*c, v);
    let max: u128 = c.max_speed as u128;
    assert(max * max <= 0xFFFF_FFFF * 0xFFFF_FFFF) by (nonlinear_arith) requires max <= 0xFFFF_FFFF;
    let m2: u128 = max * max;
    if 25 * n < 4 * m2 {
        return Velocity { x: gx, y: gy };
    }
    let l: u128 = floor_sqrt(n) as u128;
    proof { lemma_ratio_positive(n as int, l as int, max as int); }
    assert(l <= 0x800_0000_0000) by (nonlinear_arith)
        requires l * l <= n, n <= 2 * (0x200_0000_0000 * 0x200_0000_0000), l >= 0;
    let p: u64 = if n > m2 {
        RATIO_SCALE
    } else {
        assert(l <= max) by (nonlinear_arith) requires l * l <= n, n <= max * max, l >= 0, max >= 0;
        let r: u128 = l * 1_000_000 / max;
        assert(1 <= r <= 1_000_000) by (nonlinear_arith)
            requires r == l * 1_000_000 / (max as int), l <= max, l * 1_000_000 >= max, max >= 1;
        ratio_power_exec(r as u64, c.impulse_exponent)
    };
    proof {
        if n <= m2 {
            lemma_ratio_power_bounds((l * 1_000_000) as int / (max as int), c.impulse_exponent as nat);
        }
    }
    assert(dt * c.impulse_coefficient <= 0xFFFF_FFFF_FFFF_FFFF) by (nonlinear_arith)
        requires dt <= 0xFFFF_FFFF, c.impulse_coefficient <= 0xFFFF_FFFF;
    let push: u128 = dt as u128 * c.impulse_coefficient as u128;
    let kx = kick_exec(dx, push, p, l);
    let ky = kick_exec(dy, push, p, l);
    Velocity { x: saturate_exec(v.x as i128 + kx), y: saturate_exec(v.y as i128 + ky) }
}

/// The velocity after `n` ticks of `dt` microseconds each.
pub open spec fn run_movement(c: MoveController, v: Velocity, dt: u32, n: nat) -> Velocity
    decreases n,
{
    if n == 0 {
        v
    } else {
        run_movement(c, movement_velocity(c, v, dt), dt, (n - 1) as nat)
    }
}

/// The goal velocity has components of at most the top speed.
proof fn lemma_goal_bounds(c: MoveController)
    requires
        c.wf(),
    ensures
        abs(goal_velocity(c).x as int) <= c.max_speed,
        abs(goal_velocity(c).y as int) <= c.max_speed,
        goal_velocity(c).x == div_toward_zero(c.max_speed * c.target_speed.x, UNIT as int),
        goal_velocity(c).y == div_toward_zero(c.max_speed * c.target_speed.y, UNIT as int),
{
    let m = c.max_speed as int;
    let tx = c.target_speed.x as int;
    let ty = c.target_speed.y as int;
    assert(-1000 <= tx <= 1000 && -1000 <= ty <= 1000) by (nonlinear_arith)
        requires tx * tx + ty * ty <= 1_000_000;
    assert(abs(div_toward_zero(m * tx, 1000)) <= m) by (nonlinear_arith)
        requires -1000 <= tx <= 1000, m >= 0;
    assert(abs(div_toward_zero(m * ty, 1000)) <= m) by (nonlinear_arith)
        requires -1000 <= ty <= 1000, m >= 0;
}

/// A kick moves a component toward zero by at least one and by at most all
/// of it, where the push is at most the whole scale.
proof fn lemma_kick_bounds(d: int, push: int, p: int, l: int)
    requires
        push >= 1,
        p >= 1,
        l >= 1,
        push * p <= MICROS_PER_SECOND * RATIO_SCALE * l,
    ensures
        d == 0 ==> kick(d, push, p, l) == 0,
        d > 0 ==> 1 <= kick(d, push, p, l) <= d,
        d < 0 ==> d <= kick(d, push, p, l) <= -1,
{
    let den = MICROS_PER_SECOND * RATIO_SCALE * l;
    assert(MICROS_PER_SECOND == 1_000_000);
    assert(den >= 1) by (nonlinear_arith) requires den == 1_000_000 * 1_000_000 * l, l >= 1;
    let a = abs(d);
    let num = a * push * p;
    assert(num <= a * den) by (nonlinear_arith) requires push * p <= den, a >= 0, num == a * push * p;
    assert((num + den - 1) / den <= a) by (nonlinear_arith) requires num <= a * den, den >= 1;
    assert(a >= 1 ==> (num + den - 1) / den >= 1) by (nonlinear_arith)
        requires push >= 1, p >= 1, den >= 1, a >= 0, num == a * push * p;
    assert(a == 0 ==> (num + den - 1) / den == 0) by (nonlinear_arith) requires den >= 1, num == a * push * p;
}

/// Away from the goal, one tick with a push of at most the top speed per
/// tick shortens the impulse and keeps the velocity in range.
proof fn lemma_step_shrinks_impulse(c: MoveController, v: Velocity, dt: u32)
    requires
        c.wf(),
        velocity_ok(v),
        c.impulse_exponent >= 1,
        dt * c.impulse_coefficient >= 1,
        dt * c.impulse_coefficient <= MICROS_PER_SECOND * c.max_speed,
        !snaps(c, v),
    ensures
        velocity_ok(movement_velocity(c, v, dt)),
        impulse_sq(c, movement_velocity(c, v, dt)) < impulse_sq(c, v),
{
    lemma_goal_bounds(c);
    let n = impulse_sq(c, v);
    let dx = impulse_x(c, v);
    let dy = impulse_y(c, v);
    let max = c.max_speed as int;
    assert(n >= 0) by (nonlinear_arith) requires n == dx * dx + dy * dy;
    lemma_floor_sqrt_exists(n as nat);
    let l = floor_sqrt_of(n);
    lemma_ratio_positive(n, l, max);
    let push = dt * c.impulse_coefficient;
    let p = response(c, v);
    if n > max * max {
        assert(l >= max) by (nonlinear_arith) requires n < (l + 1) * (l + 1), n > max * max, l >= 0, max >= 0;
        assert(push * p <= MICROS_PER_SECOND * RATIO_SCALE * l) by (nonlinear_arith)
            requires push <= 1_000_000 * max, p == 1_000_000, l >= max;
    } else {
        assert(l <= max) by (nonlinear_arith) requires l * l <= n, n <= max * max, l >= 0, max >= 0;
        let r = l * RATIO_SCALE / max;
        assert(1 <= r <= RATIO_SCALE && r * max <= l * RATIO_SCALE) by (nonlinear_arith)
            requires r == l * 1_000_000 / max, l <= max, l * 1_000_000 >= max, max >= 1;
        lemma_ratio_power_bounds(r, c.impulse_exponent as nat);
        assert(push * p <= MICROS_PER_SECOND * RATIO_SCALE * l) by (nonlinear_arith)
            requires push <= 1_000_000 * max, 1 <= p <= r, r * max <= l * 1_000_000, push >= 0, max >= 1;
    }
    assert(p >= 1);
    let kx = kick(dx, push, p, l);
    let ky = kick(dy, push, p, l);
    lemma_kick_bounds(dx, push, p, l);
    lemma_kick_bounds(dy, push, p, l);
    let w = movement_velocity(c, v, dt);
    assert(w.x == v.x + kx);
    assert(w.y == v.y + ky);
    assert(impulse_x(c, w) == dx - kx);
    assert(impulse_y(c, w) == dy - ky);
    assert(dx != 0 || dy != 0) by (nonlinear_arith)
        requires n == dx * dx + dy * dy, 25 * n >= 4 * (max * max), max >= 1;
    assert((dx - kx) * (dx - kx) + (dy - ky) * (dy - ky) < dx * dx + dy * dy) by (nonlinear_arith)
        requires
            dx == 0 ==> kx == 0,
            dx > 0 ==> 1 <= kx <= dx,
            dx < 0 ==> dx <= kx <= -1,
            dy == 0 ==> ky == 0,
            dy > 0 ==> 1 <= ky <= dy,
            dy < 0 ==> dy <= ky <= -1,
            dx != 0 || dy != 0;
}

/// At the goal velocity the controller stays put.
proof fn lemma_goal_is_fixed(c: MoveController, dt: u32, n: nat)
    requires
        c.wf(),
    ensures
        run_movement(c, goal_velocity(c), dt, n) == goal_velocity(c),
    decreases n,
{
    assert(snaps(c, goal_velocity(c))) by (nonlinear_arith)
        requires c.max_speed >= 1, impulse_sq(c, goal_velocity(c)) == 0;
    if n > 0 {
        lemma_goal_is_fixed(c, dt, (n - 1) as nat);
    }
}

/// Unimpeded motion converges. When each tick's push `dt *
/// impulse_coefficient` is at most the top speed and the response exponent
/// is at least one, the squared impulse shrinks by at least one every tick
/// until it falls below 0.4 of the top speed, where the velocity snaps to
/// `max_speed * target_speed` and stays: after more ticks than the squared
/// impulse at the start, the velocity is the goal velocity.
pub proof fn lemma_movement_converges(c: MoveController, v: Velocity, dt: u32, n: nat)
    requires
        c.wf(),
        velocity_ok(v),
        c.impulse_exponent >= 1,
        dt * c.impulse_coefficient >= 1,
        dt * c.impulse_coefficient <= MICROS_PER_SECOND * c.max_speed,
        n > impulse_sq(c, v),
    ensures
        run_movement(c, v, dt, n) == goal_velocity(c),
    decreases n,
{
    let w = movement_velocity(c, v, dt);
    assert(impulse_sq(c, v) >= 0) by (nonlinear_arith)
        requires impulse_sq(c, v) == impulse_x(c, v) * impulse_x(c, v) + impulse_y(c, v) * impulse_y(c, v);
    if snaps(c, v) {
        lemma_goal_is_fixed(c, dt, (n - 1) as nat);
    } else {
        lemma_step_shrinks_impulse(c, v, dt);
        lemma_movement_converges(c, w, dt, (n - 1) as nat);
    }
}

/// Under the same conditions, no tick lengthens the impulse: the velocity
/// never swings away from the goal.
pub proof fn lemma_impulse_never_grows(c: MoveController, v: Velocity, dt: u32)
    requires
        c.wf(),
        velocity_ok(v),
        c.impulse_exponent >= 1,
        dt * c.impulse_coefficient >= 1,
        dt * c.impulse_coefficient <= MICROS_PER_SECOND * c.max_speed,
    ensures
        impulse_sq(c, movement_velocity(c, v, dt)) <= impulse_sq(c, v),
{
    if snaps(c, v) {
        assert(impulse_sq(c, goal_velocity(c)) == 0);
        assert(impulse_sq(c, v) >= 0) by (nonlinear_arith)
            requires impulse_sq(c, v) == impulse_x(c, v) * impulse_x(c, v) + impulse_y(c, v) * impulse_y(c, v);
    } else {
        lemma_step_shrinks_impulse(c, v, dt);
    }
}

/// How an actor's rotation changes in a tick.
#[derive(Clone, Copy, Debug, PartialEq, Eq, Structural)]
pub enum HeadingControl {
    /// Leave rotation and angular velocity as they are.
    Unchanged,
    /// Stop turning.
    Halt,
    /// Turn at the given angular velocity, in radians per second.
    Turn { angular_velocity: i32 },
    /// Stop turning and face the target direction.
    Align,
}

/// The heading decision for a target speed `t` and an actor whose rotation
/// is `rot` (its forward axis is `(-sin, cos)`). With a target speed of
/// squared magnitude above 0.1 the actor turns at `TURN_RATE` toward it
/// while more than 0.1 radians off, clockwise when the target lies to its
/// left or straight behind, and otherwise faces it; with one below 0.1 it
/// stops turning. A zero forward axis, whose angle is undefined, changes
/// nothing, and so does a target speed of squared magnitude exactly 0.1.
pub open spec fn heading_spec(t: Vec2, rot: Rotation) -> HeadingControl {
    let ls = norm_sq(t.x as int, t.y as int);
    let fx = -rot.sin;
    let fy = rot.cos as int;
    if 10 * ls > UNIT * UNIT {
        if norm_sq(fx, fy) == 0 {
            HeadingControl::Unchanged
        } else {
            let dot = t.x * fx + t.y * fy;
            let cross = t.x * fy - t.y * fx;
            if dot <= 0 || dot * dot * 1_000_000_000 < (ALIGNED_COS_SQ as int) * (ls * norm_sq(fx, fy)) {
                if cross >= 0 {
                    HeadingControl::Turn { angular_velocity: (-TURN_RATE) as i32 }
                } else {
                    HeadingControl::Turn { angular_velocity: TURN_RATE }
                }
            } else {
                HeadingControl::Align
            }
        }
    } else if 10 * ls < UNIT * UNIT {
        HeadingControl::Halt
    } else {
        HeadingControl::Unchanged
    }
}

/// Decides how an actor with target speed `t` and rotation `rot` turns.
pub fn heading_control(t: Vec2, rot: Rotation) -> (r: HeadingControl)
    requires
        within_unit(t),
    ensures
        r == heading_spec(t, rot),
{
    let tx: i128 = t.x as i128;
    let ty: i128 = t.y as i128;
    let fx: i128 = -(rot.sin as i128);
    let fy: i128 = rot.cos as i128;
    assert(-1000 <= tx <= 1000 && -1000 <= ty <= 1000 && 0 <= tx * tx <= 1_000_000 && 0 <= ty * ty <= 1_000_000)
        by (nonlinear_arith)
        requires tx * tx + ty * ty <= 1_000_000;
    let ls: i128 = tx * tx + ty * ty;
    if 10 * ls > 1_000_000 {
        assert(0 <= fx * fx <= 0x4000_0000_0000_0000 && 0 <= fy * fy <= 0x4000_0000_0000_0000) by (nonlinear_arith)
            requires -0x8000_0000 <= fx <= 0x8000_0000, -0x8000_0000 <= fy <= 0x8000_0000;
        let lf: i128 = fx * fx + fy * fy;
        if lf == 0 {
            return HeadingControl::Unchanged;
        }
        assert(-0x200_0000_0000 <= tx * fx <= 0x200_0000_0000) by (nonlinear_arith)
            requires -1000 <= tx <= 1000, -0x8000_0000 <= fx <= 0x8000_0000;
        assert(-0x200_0000_0000 <= ty * fy <= 0x200_0000_0000) by (nonlinear_arith)
            requires -1000 <= ty <= 1000, -0x8000_0000 <= fy <= 0x8000_0000;
        assert(-0x200_0000_0000 <= tx * fy <= 0x200_0000_0000) by (nonlinear_arith)
            requires -1000 <= tx <= 1000, -0x8000_0000 <= fy <= 0x8000_0000;
        assert(-0x200_0000_0000 <= ty * fx <= 0x200_0000_0000) by (nonlinear_arith)
            requires -1000 <= ty <= 1000, -0x8000_0000 <= fx <= 0x8000_0000;
        let dot: i128 = tx * fx + ty * fy;
        let cross: i128 = tx * fy - ty * fx;
        let wide = if dot <= 0 {
            true
        } else {
            assert(dot * dot <= 0x10_0000_0000_0000_0000_0000) by (nonlinear_arith)
                requires 0 < dot <= 0x400_0000_0000;
            assert(ls * lf <= 1_000_000 * 0x8000_0000_0000_0000) by (nonlinear_arith)
                requires 0 <= ls <= 1_000_000, 0 <= lf <= 0x8000_0000_0000_0000;
            dot * dot * 1_000_000_000 < ALIGNED_COS_SQ * (ls * lf)
        };
        if wide {
            if cross >= 0 {
                HeadingControl::Turn { angular_velocity: -TURN_RATE }
            } else {
                HeadingControl::Turn { angular_velocity: TURN_RATE }
            }
        } else {
            HeadingControl::Align
        }
    } else if 10 * ls < 1_000_000 {
        HeadingControl::Halt
    } else {
        HeadingControl::Unchanged
    }
}

/// What one tick of the controller does to an actor: its new velocity and
/// how it turns.
#[derive(Clone, Copy, Debug, PartialEq, Eq, Structural)]
pub struct MovementUpdate {
    pub velocity: Velocity,
    pub heading: HeadingControl,
}

/// One tick of `dt` microseconds of the movement controller for an actor
/// moving at `v` with rotation `rot`.
pub fn apply_movement(c: &MoveController, v: Velocity, rot: Rotation, dt: u32) -> (r: MovementUpdate)
    requires
        c.wf(),
        velocity_ok(v),
    ensures
        r.velocity == movement_velocity(*c, v, dt),
        r.heading == heading_spec(c.target_speed, rot),
        velocity_ok(r.velocity),
{
    let velocity = next_velocity(c, v, dt);
    let heading = heading_control(c.target_speed, rot);
    MovementUpdate { velocity, heading }
}

} // verus!
