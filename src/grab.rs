//! The grab mechanic: an actor reaches out with a hands entity for a short
//! while, takes hold of a grabbable entity in front of it, and lets go when
//! the grab control is released.
use vstd::prelude::*;
use crate::geometry::{Vec2, Rotation, UNIT, abs};
use crate::timing::{total_time, lemma_total_time_nonneg};

verus! {

/// How long, in microseconds, an actor may reach before the grab fails.
pub const GRAB_REACH_TIME: u64 = 200_000;

/// How long, in microseconds, the hands must have been out before they can
/// take hold of anything.
pub const GRAB_SETTLE_TIME: u64 = 10_000;

/// Where an actor stands in the grab mechanic. Entities are named by their
/// 64-bit identity; durations are in microseconds.
#[derive(Clone, Copy, Debug, PartialEq, Eq, Structural)]
pub enum GrabStatus {
    NoGrab,
    GrabFailed,
    Reaching { hands_entity: u64, how_long: u64 },
    Holding { hands_entity: u64, other: u64 },
}

/// What must happen to the hands entity along with a change of status.
#[derive(Clone, Copy, Debug, PartialEq, Eq, Structural)]
pub enum HandsEffect {
    Keep,
    Spawn { hands_entity: u64 },
    Despawn { hands_entity: u64 },
}

/// The outcome of one tick of the grab control.
#[derive(Clone, Copy, Debug, PartialEq, Eq, Structural)]
pub struct GrabUpdate {
    pub status: GrabStatus,
    pub effect: HandsEffect,
}

/// The hands entity that a status owns, if any.
pub open spec fn hands_of(s: GrabStatus) -> Option<u64> {
    match s {
        GrabStatus::Reaching { hands_entity, .. } => Some(hands_entity),
        GrabStatus::Holding { hands_entity, .. } => Some(hands_entity),
        _ => None,
    }
}

/// One tick of the grab control, given whether grabbing is requested, the
/// tick's length and the entity that becomes the hands if they are spawned.
pub open spec fn grab_transition(s: GrabStatus, should_grab: bool, dt: u64, fresh_hands: u64) -> GrabUpdate {
    match s {
        GrabStatus::NoGrab => if should_grab {
            GrabUpdate {
                status: GrabStatus::Reaching { hands_entity: fresh_hands, how_long: 0 },
                effect: HandsEffect::Spawn { hands_entity: fresh_hands },
            }
        } else {
            GrabUpdate { status: GrabStatus::NoGrab, effect: HandsEffect::Keep }
        },
        GrabStatus::GrabFailed => if should_grab {
            GrabUpdate { status: GrabStatus::GrabFailed, effect: HandsEffect::Keep }
        } else {
            GrabUpdate { status: GrabStatus::NoGrab, effect: HandsEffect::Keep }
        },
        GrabStatus::Reaching { hands_entity, how_long } => if should_grab {
            if how_long + dt < GRAB_REACH_TIME {
                GrabUpdate {
                    status: GrabStatus::Reaching { hands_entity, how_long: (how_long + dt) as u64 },
                    effect: HandsEffect::Keep,
                }
            } else {
                GrabUpdate { status: GrabStatus::GrabFailed, effect: HandsEffect::Despawn { hands_entity } }
            }
        } else {
            GrabUpdate { status: GrabStatus::NoGrab, effect: HandsEffect::Despawn { hands_entity } }
        },
        GrabStatus::Holding { hands_entity, other } => if should_grab {
            GrabUpdate { status: GrabStatus::Holding { hands_entity, other }, effect: HandsEffect::Keep }
        } else {
            GrabUpdate { status: GrabStatus::NoGrab, effect: HandsEffect::Despawn { hands_entity } }
        },
    }
}

/// Whether any input device holds its grab control pressed.
pub fn should_grab(pressed: &Vec<bool>) -> (r: bool)
    ensures
        r == exists|i: int| 0 <= i < pressed@.len() && pressed@[i],
{
    let mut i: usize = 0;
    while i < pressed.len()
        invariant
            i <= pressed@.len(),
            forall|j: int| 0 <= j < i ==> !pressed@[j],
        decreases pressed@.len() - i,
    {
        if pressed[i] {
            return true;
        }
        i += 1;
    }
    false
}

/// Whether this tick spawns hands, so that the caller must provide an
/// entity for them.
pub fn needs_fresh_hands(status: GrabStatus, should_grab: bool) -> (r: bool)
    ensures
        r == (status == GrabStatus::NoGrab && should_grab),
        r <==> grab_transition(status, should_grab, 0, 0).effect is Spawn,
{
    match status {
        GrabStatus::NoGrab => should_grab,
        _ => false,
    }
}

/// Advances the grab control of one actor by a tick of `dt` microseconds.
/// A press from rest spawns hands (`fresh_hands`) and starts reaching; a
/// release always lets go; reaching for `GRAB_REACH_TIME` fails the grab.
pub fn control_grabbing_initiation(status: GrabStatus, should_grab: bool, dt: u64, fresh_hands: u64) -> (r: GrabUpdate)
    ensures
        r == grab_transition(status, should_grab, dt, fresh_hands),
{
    match status {
        GrabStatus::NoGrab => {
            if should_grab {
                GrabUpdate {
                    status: GrabStatus::Reaching { hands_entity: fresh_hands, how_long: 0 },
                    effect: HandsEffect::Spawn { hands_entity: fresh_hands },
                }
            } else {
                GrabUpdate { status: GrabStatus::NoGrab, effect: HandsEffect::Keep }
            }
        },
        GrabStatus::GrabFailed => {
            if should_grab {
                GrabUpdate { status: GrabStatus::GrabFailed, effect: HandsEffect::Keep }
            } else {
                GrabUpdate { status: GrabStatus::NoGrab, effect: HandsEffect::Keep }
            }
        },
        GrabStatus::Reaching { hands_entity, how_long } => {
            if should_grab {
                if how_long < GRAB_REACH_TIME && dt < GRAB_REACH_TIME - how_long {
                    GrabUpdate {
                        status: GrabStatus::Reaching { hands_entity, how_long: how_long + dt },
                        effect: HandsEffect::Keep,
                    }
                } else {
                    GrabUpdate { status: GrabStatus::GrabFailed, effect: HandsEffect::Despawn { hands_entity } }
                }
            } else {
                GrabUpdate { status: GrabStatus::NoGrab, effect: HandsEffect::Despawn { hands_entity } }
            }
        },
        GrabStatus::Holding { hands_entity, other } => {
            if should_grab {
                GrabUpdate { status: GrabStatus::Holding { hands_entity, other }, effect: HandsEffect::Keep }
            } else {
                GrabUpdate { status: GrabStatus::NoGrab, effect: HandsEffect::Despawn { hands_entity } }
            }
        },
    }
}

/// The hands entity exists exactly while the status is reaching or holding:
/// each tick spawns hands only where the old status had none and the new one
/// owns them, despawns only the old status's hands when the new one has
/// none, and otherwise leaves the owned hands as they were.
pub proof fn lemma_hands_follow_status(s: GrabStatus, should_grab: bool, dt: u64, fresh_hands: u64)
    ensures
        ({
            let u = grab_transition(s, should_grab, dt, fresh_hands);
            match u.effect {
                HandsEffect::Keep => hands_of(u.status) == hands_of(s),
                HandsEffect::Spawn { hands_entity } =>
                    hands_of(s) is None && hands_of(u.status) == Some(hands_entity),
                HandsEffect::Despawn { hands_entity } =>
                    hands_of(s) == Some(hands_entity) && hands_of(u.status) is None,
            }
        }),
{
}

/// A grabbable entity and where it stands.
#[derive(Clone, Copy, Debug, PartialEq, Eq, Structural)]
pub struct GrabCandidate {
    pub entity: u64,
    pub position: Vec2,
}

/// A request to fasten the hands entity to the entity it took hold of.
#[derive(Clone, Copy, Debug, PartialEq, Eq, Structural)]
pub struct HoldJoint {
    pub hands_entity: u64,
    pub other: u64,
}

/// The sideways coordinate of `p` in the actor's own frame, scaled by
/// `UNIT * UNIT` (the actor faces along its local y axis).
pub open spec fn local_x(actor: Vec2, rot: Rotation, p: Vec2) -> int {
    rot.cos * (p.x - actor.x) + rot.sin * (p.y - actor.y)
}

/// The forward coordinate of `p` in the actor's own frame, scaled by
/// `UNIT * UNIT`.
pub open spec fn local_y(actor: Vec2, rot: Rotation, p: Vec2) -> int {
    rot.cos * (p.y - actor.y) - rot.sin * (p.x - actor.x)
}

/// Whether `p` lies in the rectangle in front of the actor: at most one unit
/// sideways and between zero and one unit forward.
pub open spec fn in_grab_reach(actor: Vec2, rot: Rotation, p: Vec2) -> bool {
    abs(local_x(actor, rot, p)) <= UNIT * UNIT && 0 <= local_y(actor, rot, p) <= UNIT * UNIT
}

/// The cost of grabbing the entity at `p`: sideways offset plus five times
/// the forward distance.
pub open spec fn grab_cost(actor: Vec2, rot: Rotation, p: Vec2) -> int {
    abs(local_x(actor, rot, p)) + 5 * local_y(actor, rot, p)
}

/// Candidate `i` is the one to grab: in reach, of least cost, and the first
/// of the least cost.
pub open spec fn is_chosen_candidate(actor: Vec2, rot: Rotation, cands: Seq<GrabCandidate>, i: int) -> bool {
    &&& 0 <= i < cands.len()
    &&& in_grab_reach(actor, rot, cands[i].position)
    &&& forall|j: int| 0 <= j < cands.len() && in_grab_reach(actor, rot, #[trigger] cands[j].position)
            ==> grab_cost(actor, rot, cands[i].position) <= grab_cost(actor, rot, cands[j].position)
    &&& forall|j: int| 0 <= j < i && in_grab_reach(actor, rot, #[trigger] cands[j].position)
            ==> grab_cost(actor, rot, cands[i].position) < grab_cost(actor, rot, cands[j].position)
}

/// Whether a status is reaching and has reached for long enough to take hold.
pub open spec fn ready_to_hold(s: GrabStatus) -> bool {
    match s {
        GrabStatus::Reaching { how_long, .. } => how_long >= GRAB_SETTLE_TIME,
        _ => false,
    }
}

/// Position of `p` relative to the actor, in the actor's frame, scaled by
/// `UNIT * UNIT`.
fn to_local(actor: Vec2, rot: Rotation, p: Vec2) -> (r: (i128, i128))
    ensures
        r.0 == local_x(actor, rot, p),
        r.1 == local_y(actor, rot, p),
        abs(r.0 as int) <= 0x2_0000_0000_0000_0000,
        0 - 0x2_0000_0000_0000_0000 <= r.1 <= 0x2_0000_0000_0000_0000,
{
    let dx: i128 = p.x as i128 - actor.x as i128;
    let dy: i128 = p.y as i128 - actor.y as i128;
    let c: i128 = rot.cos as i128;
    let s: i128 = rot.sin as i128;
    assert(-0x1_0000_0000_0000_0000 <= c * dx <= 0x1_0000_0000_0000_0000) by (nonlinear_arith)
        requires -0x8000_0000 <= c <= 0x8000_0000, -0x1_0000_0000 <= dx <= 0x1_0000_0000;
    assert(-0x1_0000_0000_0000_0000 <= s * dy <= 0x1_0000_0000_0000_0000) by (nonlinear_arith)
        requires -0x8000_0000 <= s <= 0x8000_0000, -0x1_0000_0000 <= dy <= 0x1_0000_0000;
    assert(-0x1_0000_0000_0000_0000 <= c * dy <= 0x1_0000_0000_0000_0000) by (nonlinear_arith)
        requires -0x8000_0000 <= c <= 0x8000_0000, -0x1_0000_0000 <= dy <= 0x1_0000_0000;
    assert(-0x1_0000_0000_0000_0000 <= s * dx <= 0x1_0000_0000_0000_0000) by (nonlinear_arith)
        requires -0x8000_0000 <= s <= 0x8000_0000, -0x1_0000_0000 <= dx <= 0x1_0000_0000;
    (c * dx + s * dy, c * dy - s * dx)
}

/// Lets a reaching actor take hold of the cheapest grabbable entity in reach
/// once its hands have been out for `GRAB_SETTLE_TIME`. Returns the new
/// status and, on taking hold, the joint to create; otherwise the status
/// unchanged and no joint.
pub fn handle_grabbing_taking_hold(
    status: GrabStatus,
    actor: Vec2,
    rot: Rotation,
    cands: &Vec<GrabCandidate>,
) -> (r: (GrabStatus, Option<HoldJoint>))
    ensures
        ready_to_hold(status) && (exists|i: int| 0 <= i < cands@.len() && in_grab_reach(actor, rot, #[trigger] cands@[i].position))
            ==> exists|i: int| is_chosen_candidate(actor, rot, cands@, i) && r == (
                GrabStatus::Holding { hands_entity: hands_of(status)->0, other: cands@[i].entity },
                Some(HoldJoint { hands_entity: hands_of(status)->0, other: cands@[i].entity }),
            ),
        !(ready_to_hold(status) && (exists|i: int| 0 <= i < cands@.len() && in_grab_reach(actor, rot, #[trigger] cands@[i].position)))
            ==> r == (status, Option::<HoldJoint>::None),
{
    let hands_entity = match status {
        GrabStatus::Reaching { hands_entity, how_long } => {
            if how_long < GRAB_SETTLE_TIME {
                return (status, None);
            }
            hands_entity
        },
        _ => {
            return (status, None);
        },
    };
    let mut best: Option<usize> = None;
    let mut best_cost: i128 = 0;
    let mut i: usize = 0;
    while i < cands.len()
        invariant
            i <= cands@.len(),
            best is None ==> forall|j: int| 0 <= j < i ==> !in_grab_reach(actor, rot, #[trigger] cands@[j].position),
            best is Some ==> {
                let b = best->0 as int;
                &&& b < i
                &&& in_grab_reach(actor, rot, cands@[b].position)
                &&& best_cost == grab_cost(actor, rot, cands@[b].position)
                &&& forall|j: int| 0 <= j < i && in_grab_reach(actor, rot, #[trigger] cands@[j].position)
                        ==> best_cost <= grab_cost(actor, rot, cands@[j].position)
                &&& forall|j: int| 0 <= j < b && in_grab_reach(actor, rot, #[trigger] cands@[j].position)
                        ==> best_cost < grab_cost(actor, rot, cands@[j].position)
            },
        decreases cands@.len() - i,
    {
        let (lx, ly) = to_local(actor, rot, cands[i].position);
        let ax: i128 = if lx < 0 { -lx } else { lx };
        if ax <= 1_000_000 && 0 <= ly && ly <= 1_000_000 {
            let cost: i128 = ax + 5 * ly;
            match best {
                None => {
                    best = Some(i);
                    best_cost = cost;
                },
                Some(_) => {
                    if cost < best_cost {
                        best = Some(i);
                        best_cost = cost;
                    }
                },
            }
        }
        i += 1;
    }
    match best {
        None => (status, None),
        Some(b) => {
            let other = cands[b].entity;
            assert(is_chosen_candidate(actor, rot, cands@, b as int));
            (GrabStatus::Holding { hands_entity, other }, Some(HoldJoint { hands_entity, other }))
        },
    }
}

/// The status after ticks of the given lengths with the grab control held.
pub open spec fn keep_grabbing(s: GrabStatus, dts: Seq<u64>) -> GrabStatus
    decreases dts.len(),
{
    if dts.len() == 0 {
        s
    } else {
        grab_transition(keep_grabbing(s, dts.drop_last()), true, dts.last(), 0).status
    }
}

proof fn lemma_keep_reaching(h: u64, dts: Seq<u64>)
    ensures
        keep_grabbing(GrabStatus::Reaching { hands_entity: h, how_long: 0 }, dts) == if total_time(dts) < GRAB_REACH_TIME {
            GrabStatus::Reaching { hands_entity: h, how_long: total_time(dts) as u64 }
        } else {
            GrabStatus::GrabFailed
        },
    decreases dts.len(),
{
    if dts.len() > 0 {
        lemma_keep_reaching(h, dts.drop_last());
        lemma_total_time_nonneg(dts.drop_last());
    }
}

/// Timing of a grab with nothing in reach. A press from rest spawns hands and
/// starts reaching; while the control stays pressed for less than
/// `GRAB_REACH_TIME` in all, the actor keeps reaching, and a release then
/// removes the hands and returns to rest; once the control has been held for
/// `GRAB_REACH_TIME`, the grab has failed and the hands are gone, and a
/// release from there returns to rest.
pub proof fn lemma_grab_timing(first_dt: u64, fresh_hands: u64, dts: Seq<u64>, release_dt: u64)
    ensures
        grab_transition(GrabStatus::NoGrab, true, first_dt, fresh_hands) == (GrabUpdate {
            status: GrabStatus::Reaching { hands_entity: fresh_hands, how_long: 0 },
            effect: HandsEffect::Spawn { hands_entity: fresh_hands },
        }),
        ({
            let held = keep_grabbing(GrabStatus::Reaching { hands_entity: fresh_hands, how_long: 0 }, dts);
            &&& total_time(dts) < GRAB_REACH_TIME ==> hands_of(held) == Some(fresh_hands)
                && grab_transition(held, false, release_dt, 0) == (GrabUpdate {
                    status: GrabStatus::NoGrab,
                    effect: HandsEffect::Despawn { hands_entity: fresh_hands },
                })
            &&& total_time(dts) >= GRAB_REACH_TIME ==> held == GrabStatus::GrabFailed
                && grab_transition(held, false, release_dt, 0) == (GrabUpdate {
                    status: GrabStatus::NoGrab,
                    effect: HandsEffect::Keep,
                })
        }),
{
    lemma_keep_reaching(fresh_hands, dts);
}

} // verus!
