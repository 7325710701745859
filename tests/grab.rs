use signal_scuffle::geometry::{Rotation, Vec2};
use signal_scuffle::grab::{
    control_grabbing_initiation, handle_grabbing_taking_hold, needs_fresh_hands, should_grab,
    GrabCandidate, GrabStatus, GrabUpdate, HandsEffect, HoldJoint,
};

const TICK: u64 = 16_667;
const FACING_UP: Rotation = Rotation { cos: 1000, sin: 0 };

fn cand(entity: u64, x: i32, y: i32) -> GrabCandidate {
    GrabCandidate { entity, position: Vec2 { x, y } }
}

#[test]
fn grab_control_reads_any_device() {
    assert!(!should_grab(&vec![]));
    assert!(!should_grab(&vec![false, false]));
    assert!(should_grab(&vec![false, true]));
}

#[test]
fn press_spawns_hands() {
    assert!(needs_fresh_hands(GrabStatus::NoGrab, true));
    assert!(!needs_fresh_hands(GrabStatus::NoGrab, false));
    assert!(!needs_fresh_hands(GrabStatus::GrabFailed, true));
    let u = control_grabbing_initiation(GrabStatus::NoGrab, true, TICK, 42);
    assert_eq!(
        u,
        GrabUpdate {
            status: GrabStatus::Reaching { hands_entity: 42, how_long: 0 },
            effect: HandsEffect::Spawn { hands_entity: 42 },
        }
    );
    let idle = control_grabbing_initiation(GrabStatus::NoGrab, false, TICK, 42);
    assert_eq!(idle, GrabUpdate { status: GrabStatus::NoGrab, effect: HandsEffect::Keep });
}

#[test]
fn quick_release_returns_to_rest() {
    let mut s = control_grabbing_initiation(GrabStatus::NoGrab, true, TICK, 5).status;
    for _ in 0..5 {
        let u = control_grabbing_initiation(s, true, TICK, 0);
        assert_eq!(u.effect, HandsEffect::Keep);
        s = u.status;
    }
    assert_eq!(s, GrabStatus::Reaching { hands_entity: 5, how_long: 5 * TICK });
    let u = control_grabbing_initiation(s, false, TICK, 0);
    assert_eq!(u, GrabUpdate { status: GrabStatus::NoGrab, effect: HandsEffect::Despawn { hands_entity: 5 } });
}

#[test]
fn holding_past_reach_time_fails() {
    let mut s = GrabStatus::Reaching { hands_entity: 5, how_long: 0 };
    for _ in 0..11 {
        s = control_grabbing_initiation(s, true, TICK, 0).status;
    }
    assert_eq!(s, GrabStatus::Reaching { hands_entity: 5, how_long: 11 * TICK });
    let u = control_grabbing_initiation(s, true, TICK, 0);
    assert_eq!(u, GrabUpdate { status: GrabStatus::GrabFailed, effect: HandsEffect::Despawn { hands_entity: 5 } });
    let still = control_grabbing_initiation(GrabStatus::GrabFailed, true, TICK, 0);
    assert_eq!(still, GrabUpdate { status: GrabStatus::GrabFailed, effect: HandsEffect::Keep });
    let released = control_grabbing_initiation(GrabStatus::GrabFailed, false, TICK, 0);
    assert_eq!(released, GrabUpdate { status: GrabStatus::NoGrab, effect: HandsEffect::Keep });
}

#[test]
fn reach_time_boundary() {
    let s = GrabStatus::Reaching { hands_entity: 1, how_long: 150_000 };
    assert_eq!(
        control_grabbing_initiation(s, true, 49_999, 0).status,
        GrabStatus::Reaching { hands_entity: 1, how_long: 199_999 }
    );
    assert_eq!(control_grabbing_initiation(s, true, 50_000, 0).status, GrabStatus::GrabFailed);
    assert_eq!(control_grabbing_initiation(s, true, u64::MAX, 0).status, GrabStatus::GrabFailed);
}

#[test]
fn holding_lasts_until_release() {
    let s = GrabStatus::Holding { hands_entity: 3, other: 9 };
    assert_eq!(control_grabbing_initiation(s, true, TICK, 0), GrabUpdate { status: s, effect: HandsEffect::Keep });
    assert_eq!(
        control_grabbing_initiation(s, false, TICK, 0),
        GrabUpdate { status: GrabStatus::NoGrab, effect: HandsEffect::Despawn { hands_entity: 3 } }
    );
}

#[test]
fn take_hold_of_cheapest_in_front() {
    let s = GrabStatus::Reaching { hands_entity: 3, how_long: TICK };
    let cands = vec![cand(10, 0, 500), cand(11, 500, 100), cand(12, 0, -500), cand(13, 1500, 0)];
    let (status, joint) = handle_grabbing_taking_hold(s, Vec2 { x: 0, y: 0 }, FACING_UP, &cands);
    assert_eq!(status, GrabStatus::Holding { hands_entity: 3, other: 11 });
    assert_eq!(joint, Some(HoldJoint { hands_entity: 3, other: 11 }));
}

#[test]
fn take_hold_first_of_equal_cost() {
    let s = GrabStatus::Reaching { hands_entity: 3, how_long: TICK };
    let cands = vec![cand(20, -300, 0), cand(21, 300, 0)];
    let (status, _) = handle_grabbing_taking_hold(s, Vec2 { x: 0, y: 0 }, FACING_UP, &cands);
    assert_eq!(status, GrabStatus::Holding { hands_entity: 3, other: 20 });
}

#[test]
fn take_hold_uses_actor_frame() {
    // the actor at (1000, 1000) faces along +x: rotated by -90 degrees
    let facing_right = Rotation { cos: 0, sin: -1000 };
    let s = GrabStatus::Reaching { hands_entity: 3, how_long: TICK };
    let cands = vec![cand(30, 1000, 2500), cand(31, 1500, 1000), cand(32, 500, 1000)];
    let (status, _) = handle_grabbing_taking_hold(s, Vec2 { x: 1000, y: 1000 }, facing_right, &cands);
    assert_eq!(status, GrabStatus::Holding { hands_entity: 3, other: 31 });
}

#[test]
fn no_hold_before_settling_or_out_of_reach() {
    let cands = vec![cand(10, 0, 500)];
    let early = GrabStatus::Reaching { hands_entity: 3, how_long: 9_999 };
    assert_eq!(
        handle_grabbing_taking_hold(early, Vec2 { x: 0, y: 0 }, FACING_UP, &cands),
        (early, None)
    );
    let ready = GrabStatus::Reaching { hands_entity: 3, how_long: 10_000 };
    let behind = vec![cand(12, 0, -500), cand(13, 0, 1001)];
    assert_eq!(
        handle_grabbing_taking_hold(ready, Vec2 { x: 0, y: 0 }, FACING_UP, &behind),
        (ready, None)
    );
    assert_eq!(
        handle_grabbing_taking_hold(GrabStatus::NoGrab, Vec2 { x: 0, y: 0 }, FACING_UP, &cands),
        (GrabStatus::NoGrab, None)
    );
    let edge = vec![cand(14, -1000, 1000)];
    assert_eq!(
        handle_grabbing_taking_hold(ready, Vec2 { x: 0, y: 0 }, FACING_UP, &edge).0,
        GrabStatus::Holding { hands_entity: 3, other: 14 }
    );
}
