//! Fixed-point plane geometry. One world unit is `UNIT` steps, so a position
//! of `(1500, -250)` is the point `(1.5, -0.25)`; a direction or a target
//! speed of magnitude one has length `UNIT`.
use vstd::prelude::*;

verus! {

/// Fixed-point steps in one world unit.
pub const UNIT: i64 = 1000;

/// A point or a vector in the plane, in steps of `1 / UNIT` world units.
#[derive(Clone, Copy, Debug, PartialEq, Eq, Structural)]
pub struct Vec2 {
    pub x: i32,
    pub y: i32,
}

/// An actor's rotation as the cosine and sine of its angle, scaled by `UNIT`.
#[derive(Clone, Copy, Debug, PartialEq, Eq, Structural)]
pub struct Rotation {
    pub cos: i32,
    pub sin: i32,
}

/// The absolute value of an integer.
pub open spec fn abs(a: int) -> int {
    if a < 0 { -a } else { a }
}

/// Division that rounds toward zero, as Rust's `/` does; `b` is positive.
pub open spec fn div_toward_zero(a: int, b: int) -> int {
    if a >= 0 { a / b } else { -((-a) / b) }
}

/// The least integer not below `a / b`, for `a >= 0` and `b > 0`.
pub open spec fn div_ceil(a: int, b: int) -> int {
    (a + b - 1) / b
}

/// `r` is the integer square root of `n`, rounded down.
pub open spec fn is_floor_sqrt(n: int, r: int) -> bool {
    0 <= r && r * r <= n && n < (r + 1) * (r + 1)
}

/// `r` is the integer square root of `n`, rounded up.
pub open spec fn is_ceil_sqrt(n: int, r: int) -> bool {
    0 <= r && n <= r * r && (r == 0 || (r - 1) * (r - 1) < n)
}

/// The integer square root of a non-negative `n`, rounded down.
pub open spec fn floor_sqrt_of(n: int) -> int {
    choose|r: int| is_floor_sqrt(n, r)
}

/// The integer square root of a non-negative `n`, rounded up.
pub open spec fn ceil_sqrt_of(n: int) -> int {
    choose|r: int| is_ceil_sqrt(n, r)
}

/// At most one integer is the rounded-down square root of `n`.
pub proof fn lemma_floor_sqrt_unique(n: int, a: int, b: int)
    requires
        is_floor_sqrt(n, a),
        is_floor_sqrt(n, b),
    ensures
        a == b,
{
    if a < b {
        assert((a + 1) * (a + 1) <= b * b) by (nonlinear_arith)
            requires 0 <= a, a + 1 <= b;
    } else if b < a {
        assert((b + 1) * (b + 1) <= a * a) by (nonlinear_arith)
            requires 0 <= b, b + 1 <= a;
    }
}

/// At most one integer is the rounded-up square root of `n`.
pub proof fn lemma_ceil_sqrt_unique(n: int, a: int, b: int)
    requires
        is_ceil_sqrt(n, a),
        is_ceil_sqrt(n, b),
    ensures
        a == b,
{
    if a < b {
        assert(a * a <= (b - 1) * (b - 1)) by (nonlinear_arith)
            requires 0 <= a, a <= b - 1;
    } else if b < a {
        assert(b * b <= (a - 1) * (a - 1)) by (nonlinear_arith)
            requires 0 <= b, b <= a - 1;
    }
}

/// Every non-negative integer has a rounded-down square root.
pub proof fn lemma_floor_sqrt_exists(n: nat)
    ensures
        is_floor_sqrt(n as int, floor_sqrt_of(n as int)),
    decreases n,
{
    if n == 0 {
        assert(is_floor_sqrt(0, 0));
    } else {
        lemma_floor_sqrt_exists((n - 1) as nat);
        let r = floor_sqrt_of(n - 1);
        if (r + 1) * (r + 1) <= n {
            assert(n < (r + 2) * (r + 2)) by (nonlinear_arith)
                requires n - 1 < (r + 1) * (r + 1), r >= 0;
            assert(is_floor_sqrt(n as int, r + 1));
        } else {
            assert(is_floor_sqrt(n as int, r));
        }
    }
}

/// Squared length of the vector `(x, y)`.
pub open spec fn norm_sq(x: int, y: int) -> int {
    x * x + y * y
}

/// Squared distance between two points.
pub open spec fn distance_sq_spec(a: Vec2, b: Vec2) -> int {
    norm_sq(a.x - b.x, a.y - b.y)
}

/// The integer square root of `n`, rounded down, by bisection.
pub fn floor_sqrt(n: u128) -> (r: u64)
    ensures
        is_floor_sqrt(n as int, r as int),
        r == floor_sqrt_of(n as int),
{
    let mut lo: u128 = 0;
    let mut hi: u128 = 0x1_0000_0000_0000_0000;
    assert(n < hi * hi) by (nonlinear_arith)
        requires hi == 0x1_0000_0000_0000_0000u128, n <= u128::MAX;
    while lo + 1 < hi
        invariant
            lo < hi <= 0x1_0000_0000_0000_0000u128,
            lo * lo <= n,
            n < hi * hi,
        decreases hi - lo,
    {
        let mid: u128 = lo + (hi - lo) / 2;
        assert(lo < mid < hi);
        assert(mid * mid <= u128::MAX) by (nonlinear_arith)
            requires mid <= 0xFFFF_FFFF_FFFF_FFFFu128;
        if mid * mid <= n {
            lo = mid;
        } else {
            hi = mid;
        }
    }
    assert(hi == lo + 1);
    proof {
        let c = floor_sqrt_of(n as int);
        assert(is_floor_sqrt(n as int, lo as int));
        assert(is_floor_sqrt(n as int, c));
        lemma_floor_sqrt_unique(n as int, c, lo as int);
    }
    lo as u64
}

/// The integer square root of `n`, rounded up.
pub fn ceil_sqrt(n: u128) -> (r: u128)
    ensures
        is_ceil_sqrt(n as int, r as int),
        r == ceil_sqrt_of(n as int),
{
    let f = floor_sqrt(n) as u128;
    let f2: u128 = f * f;
    if f2 == n {
        assert(f == 0 || (f - 1) * (f - 1) < f * f) by (nonlinear_arith)
            requires f >= 0;
        proof {
            let c = ceil_sqrt_of(n as int);
            assert(is_ceil_sqrt(n as int, f as int));
            assert(is_ceil_sqrt(n as int, c));
            lemma_ceil_sqrt_unique(n as int, c, f as int);
        }
        f
    } else {
        assert((f + 1 - 1) * (f + 1 - 1) < n);
        proof {
            let c = ceil_sqrt_of(n as int);
            assert(is_ceil_sqrt(n as int, (f + 1) as int));
            assert(is_ceil_sqrt(n as int, c));
            lemma_ceil_sqrt_unique(n as int, c, (f + 1) as int);
        }
        f + 1
    }
}

/// Bound on the components that `normalize` accepts.
pub const WIDE_LIMIT: i64 = 1_099_511_627_776;

/// The vector `(x, y)` scaled to length `UNIT`: each component is multiplied by
/// `UNIT` and divided, rounding toward zero, by the length rounded up.
pub open spec fn normalized(x: int, y: int) -> (int, int) {
    let l = ceil_sqrt_of(norm_sq(x, y));
    (div_toward_zero(x * UNIT, l), div_toward_zero(y * UNIT, l))
}

/// Whether `v` is no longer than `UNIT`, that is of magnitude at most one.
pub open spec fn within_unit(v: Vec2) -> bool {
    norm_sq(v.x as int, v.y as int) <= UNIT * UNIT
}

/// `|a| * k / l` rounded down, with the sign of `a`, where `|a| <= l`.
fn scale_component(a: i64, k: u128, l: u128) -> (r: i64)
    requires
        -WIDE_LIMIT <= a <= WIDE_LIMIT,
        abs(a as int) <= l,
        k <= 1_000_000,
        l > 0,
    ensures
        r == div_toward_zero(a * k, l as int),
        abs(r as int) <= k,
{
    let m: u128 = if a < 0 { (-a) as u128 } else { a as u128 };
    assert(m * k <= 1_099_511_627_776u128 * 1_000_000u128) by (nonlinear_arith)
        requires m <= 1_099_511_627_776u128, k <= 1_000_000u128;
    let q: u128 = m * k / l;
    assert(q <= k) by (nonlinear_arith)
        requires q == m * k / (l as int), l > 0, m <= l, k >= 0;
    if a < 0 {
        assert(a * k == -(m * k)) by (nonlinear_arith) requires m == -a;
        -(q as i64)
    } else {
        q as i64
    }
}

/// The direction of `(x, y)` as a vector of length about `UNIT`, never longer.
pub fn normalize(x: i64, y: i64) -> (r: Vec2)
    requires
        -WIDE_LIMIT <= x <= WIDE_LIMIT,
        -WIDE_LIMIT <= y <= WIDE_LIMIT,
        x != 0 || y != 0,
    ensures
        (r.x as int, r.y as int) == normalized(x as int, y as int),
        within_unit(r),
{
    let ax: u128 = if x < 0 { (-x) as u128 } else { x as u128 };
    let ay: u128 = if y < 0 { (-y) as u128 } else { y as u128 };
    assert(ax * ax <= 1_099_511_627_776u128 * 1_099_511_627_776u128) by (nonlinear_arith)
        requires ax <= 1_099_511_627_776u128;
    assert(ay * ay <= 1_099_511_627_776u128 * 1_099_511_627_776u128) by (nonlinear_arith)
        requires ay <= 1_099_511_627_776u128;
    let n: u128 = ax * ax + ay * ay;
    assert(n == norm_sq(x as int, y as int)) by (nonlinear_arith)
        requires ax == abs(x as int), ay == abs(y as int), n == ax * ax + ay * ay;
    assert(n >= 1) by (nonlinear_arith)
        requires n == ax * ax + ay * ay, ax > 0 || ay > 0;
    let l = ceil_sqrt(n);
    assert(l > 0) by (nonlinear_arith) requires n <= l * l, n >= 1;
    assert(ax <= l) by (nonlinear_arith) requires ax * ax <= n, n <= l * l, l >= 0;
    assert(ay <= l) by (nonlinear_arith) requires ay * ay <= n, n <= l * l, l >= 0;
    let qx: u128 = ax * 1000 / l;
    let qy: u128 = ay * 1000 / l;
    assert(qx <= 1000) by (nonlinear_arith) requires qx == ax * 1000 / (l as int), ax <= l, l > 0;
    assert(qy <= 1000) by (nonlinear_arith) requires qy == ay * 1000 / (l as int), ay <= l, l > 0;
    assert(qx * l <= ax * 1000) by (nonlinear_arith) requires qx == ax * 1000 / (l as int), l > 0;
    assert(qy * l <= ay * 1000) by (nonlinear_arith) requires qy == ay * 1000 / (l as int), l > 0;
    assert((qx * qx + qy * qy) * (l * l) <= (ax * ax + ay * ay) * 1_000_000) by (nonlinear_arith)
        requires qx * l <= ax * 1000, qy * l <= ay * 1000, qx >= 0, qy >= 0, l >= 0;
    assert(qx * qx + qy * qy <= 1_000_000) by (nonlinear_arith)
        requires
            (qx * qx + qy * qy) * (l * l) <= n * 1_000_000,
            n <= l * l,
            l > 0,
            qx >= 0,
            qy >= 0;
    let rx = scale_component(x, 1000, l);
    let ry = scale_component(y, 1000, l);
    assert(rx == qx || rx == -qx);
    assert(ry == qy || ry == -qy);
    assert(rx * rx == qx * qx) by (nonlinear_arith) requires rx == qx || rx == -qx;
    assert(ry * ry == qy * qy) by (nonlinear_arith) requires ry == qy || ry == -qy;
    Vec2 { x: rx as i32, y: ry as i32 }
}

/// Squared distance between two points.
pub fn distance_sq(a: Vec2, b: Vec2) -> (r: u128)
    ensures
        r == distance_sq_spec(a, b),
{
    let dx: i64 = a.x as i64 - b.x as i64;
    let dy: i64 = a.y as i64 - b.y as i64;
    let ax: u128 = if dx < 0 { (-dx) as u128 } else { dx as u128 };
    let ay: u128 = if dy < 0 { (-dy) as u128 } else { dy as u128 };
    assert(ax * ax <= 0x1_0000_0000u128 * 0x1_0000_0000u128) by (nonlinear_arith)
        requires ax <= 0x1_0000_0000u128;
    assert(ay * ay <= 0x1_0000_0000u128 * 0x1_0000_0000u128) by (nonlinear_arith)
        requires ay <= 0x1_0000_0000u128;
    let r = ax * ax + ay * ay;
    assert(r == norm_sq(dx as int, dy as int)) by (nonlinear_arith)
        requires ax == abs(dx as int), ay == abs(dy as int), r == ax * ax + ay * ay;
    r
}

} // verus!
