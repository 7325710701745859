//! Pursuit steering: a pursuer heads for the access point its own signal
//! comes from, at full speed from afar and slowing down over the last unit.
use vstd::prelude::*;
use crate::geometry::{Vec2, UNIT, norm_sq, normalized, normalize, within_unit};
use crate::wifi::{AccessPoint, WifiClient};

verus! {

/// The target speed of a pursuer at `p` heading for `goal`: the offset
/// itself when it is shorter than one unit, else the offset's direction.
pub open spec fn pursuit_target(p: Vec2, goal: Vec2) -> Vec2 {
    let dx = goal.x - p.x;
    let dy = goal.y - p.y;
    if norm_sq(dx, dy) < UNIT * UNIT {
        Vec2 { x: dx as i32, y: dy as i32 }
    } else {
        Vec2 { x: normalized(dx, dy).0 as i32, y: normalized(dx, dy).1 as i32 }
    }
}

/// The target speed toward `goal` for a pursuer at `p`.
pub fn pursue(p: Vec2, goal: Vec2) -> (r: Vec2)
    ensures
        r == pursuit_target(p, goal),
        within_unit(r),
{
    let dx: i64 = goal.x as i64 - p.x as i64;
    let dy: i64 = goal.y as i64 - p.y as i64;
    if dx == 0 && dy == 0 {
        return Vec2 { x: 0, y: 0 };
    }
    let ax: i128 = dx as i128;
    let ay: i128 = dy as i128;
    assert(0 <= ax * ax <= 0x1_0000_0000 * 0x1_0000_0000) by (nonlinear_arith)
        requires -0x1_0000_0000 <= ax <= 0x1_0000_0000;
    assert(0 <= ay * ay <= 0x1_0000_0000 * 0x1_0000_0000) by (nonlinear_arith)
        requires -0x1_0000_0000 <= ay <= 0x1_0000_0000;
    if ax * ax + ay * ay < 1_000_000 {
        assert(-1000 <= ax <= 1000 && -1000 <= ay <= 1000) by (nonlinear_arith)
            requires ax * ax + ay * ay < 1_000_000;
        Vec2 { x: dx as i32, y: dy as i32 }
    } else {
        normalize(dx, dy)
    }
}

/// Steers a pursuer at `p` whose own signal comes from `client`: the new
/// target speed toward the position of its access point, looked up by
/// entity among `aps` (the first one listed under it). With no access
/// point, or one that is not listed, the target speed is left as it is
/// (`None`).
pub fn follow_wifi_signal(p: Vec2, client: &WifiClient, aps: &Vec<AccessPoint>) -> (r: Option<Vec2>)
    ensures
        (client.access_point is None) ==> (r is None),
        (client.access_point is Some) && (forall|i: int| 0 <= i < aps@.len()
            ==> #[trigger] aps@[i].entity != client.access_point->0) ==> (r is None),
        (client.access_point is Some) && (exists|i: int| 0 <= i < aps@.len()
            && #[trigger] aps@[i].entity == client.access_point->0) ==> (exists|i: int|
                0 <= i < aps@.len() && aps@[i].entity == client.access_point->0
                && (forall|j: int| 0 <= j < i ==> #[trigger] aps@[j].entity != client.access_point->0)
                && r == Some(pursuit_target(p, aps@[i].position))),
{
    let e = match client.access_point {
        Some(e) => e,
        None => {
            return None;
        },
    };
    let mut i: usize = 0;
    while i < aps.len()
        invariant
            i <= aps@.len(),
            client.access_point == Some(e),
            forall|j: int| 0 <= j < i ==> #[trigger] aps@[j].entity != e,
        decreases aps@.len() - i,
    {
        if aps[i].entity == e {
            let r = Some(pursue(p, aps[i].position));
            assert(aps@[i as int].entity == e);
            return r;
        }
        i += 1;
    }
    None
}

} // verus!
