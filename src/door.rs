//! The exit door: it opens once any client has completed its download, and
//! a player touching an open door completes the level.
use vstd::prelude::*;
use crate::collision::CollisionEvent;
use crate::wifi::{DownloadProgress, tick_downloads, run_downloads};

verus! {

/// Whether a door is open.
#[derive(Clone, Copy, Debug, PartialEq, Eq, Structural)]
pub struct DoorStatus {
    pub is_open: bool,
}

/// A door entity and its status.
#[derive(Clone, Copy, Debug, PartialEq, Eq, Structural)]
pub struct Door {
    pub entity: u64,
    pub status: DoorStatus,
}

/// Whether some client has completed its download.
pub open spec fn any_download_complete(ps: Seq<DownloadProgress>) -> bool {
    exists|i: int| 0 <= i < ps.len() && ps[i] == DownloadProgress::Completed
}

/// Whether the doors should be open: some client has completed its
/// download.
pub fn update_doors_status(ps: &Vec<DownloadProgress>) -> (r: DoorStatus)
    ensures
        r.is_open == any_download_complete(ps@),
{
    let mut i: usize = 0;
    while i < ps.len()
        invariant
            i <= ps@.len(),
            forall|j: int| 0 <= j < i ==> ps@[j] != DownloadProgress::Completed,
        decreases ps@.len() - i,
    {
        if let DownloadProgress::Completed = ps[i] {
            return DoorStatus { is_open: true };
        }
        i += 1;
    }
    DoorStatus { is_open: false }
}

/// Doors that are open stay open: when some download is complete, it is
/// still complete after any run of ticks, with any signal.
pub proof fn lemma_doors_stay_open(ps: Seq<DownloadProgress>, ticks: Seq<(Seq<bool>, u64)>)
    requires
        any_download_complete(ps),
    ensures
        any_download_complete(run_downloads(ps, ticks)),
    decreases ticks.len(),
{
    if ticks.len() > 0 {
        lemma_doors_stay_open(ps, ticks.drop_last());
        let before = run_downloads(ps, ticks.drop_last());
        let i = choose|i: int| 0 <= i < before.len() && before[i] == DownloadProgress::Completed;
        let after = tick_downloads(before, ticks.last().0, ticks.last().1);
        assert(after[i] == DownloadProgress::Completed);
    }
}

/// Whether `e` is among the players.
pub open spec fn is_player(players: Seq<u64>, e: u64) -> bool {
    players.contains(e)
}

/// Door `i` is the first one listed under entity `e`.
pub open spec fn is_door_entry(doors: Seq<Door>, e: u64, i: int) -> bool {
    &&& 0 <= i < doors.len()
    &&& doors[i].entity == e
    &&& forall|j: int| 0 <= j < i ==> #[trigger] doors[j].entity != e
}

/// Whether `e` is a door.
pub open spec fn is_door(doors: Seq<Door>, e: u64) -> bool {
    exists|i: int| 0 <= i < doors.len() && #[trigger] doors[i].entity == e
}

/// Whether `e` is a door that is open.
pub open spec fn door_open(doors: Seq<Door>, e: u64) -> bool {
    exists|i: int| is_door_entry(doors, e, i) && doors[i].status.is_open
}

/// The door that a pair of colliding entities makes a player reach, if one
/// of them is a player and the other a door (the first entity tried first
/// as the player).
pub open spec fn reached_door(players: Seq<u64>, doors: Seq<Door>, a: u64, b: u64) -> Option<u64> {
    if is_player(players, a) && is_door(doors, b) {
        Some(b)
    } else if is_player(players, b) && is_door(doors, a) {
        Some(a)
    } else {
        None
    }
}

/// Whether an event is a player starting to touch the sensor of an open
/// door.
pub open spec fn completes_level(players: Seq<u64>, doors: Seq<Door>, ev: CollisionEvent) -> bool {
    match ev {
        CollisionEvent::Started { a, b, sensor } => sensor && match reached_door(players, doors, a, b) {
            Some(d) => door_open(doors, d),
            None => false,
        },
        CollisionEvent::Stopped { .. } => false,
    }
}

/// Whether `e` is among the players.
fn find_player(players: &Vec<u64>, e: u64) -> (r: bool)
    ensures
        r == is_player(players@, e),
{
    let mut i: usize = 0;
    while i < players.len()
        invariant
            i <= players@.len(),
            forall|j: int| 0 <= j < i ==> players@[j] != e,
        decreases players@.len() - i,
    {
        if players[i] == e {
            assert(players@[i as int] == e);
            return true;
        }
        i += 1;
    }
    false
}

/// The first door listed under `e`, if any.
fn find_door(doors: &Vec<Door>, e: u64) -> (r: Option<usize>)
    ensures
        r is None ==> !is_door(doors@, e),
        r is Some ==> is_door_entry(doors@, e, r->0 as int),
{
    let mut i: usize = 0;
    while i < doors.len()
        invariant
            i <= doors@.len(),
            forall|j: int| 0 <= j < i ==> #[trigger] doors@[j].entity != e,
        decreases doors@.len() - i,
    {
        if doors[i].entity == e {
            return Some(i);
        }
        i += 1;
    }
    None
}

/// Whether this tick's collision events complete the level: some event is
/// a player starting to touch the sensor of an open door. Stop events,
/// solid contacts and pairs that are not a player and a door are ignored;
/// the level completes once however many such events there are.
pub fn handle_door_reached_events(events: &Vec<CollisionEvent>, players: &Vec<u64>, doors: &Vec<Door>) -> (r: bool)
    ensures
        r == exists|k: int| 0 <= k < events@.len() && completes_level(players@, doors@, #[trigger] events@[k]),
{
    let mut k: usize = 0;
    while k < events.len()
        invariant
            k <= events@.len(),
            forall|j: int| 0 <= j < k ==> !completes_level(players@, doors@, #[trigger] events@[j]),
        decreases events@.len() - k,
    {
        if let CollisionEvent::Started { a, b, sensor } = events[k] {
            if sensor {
                let door = if find_player(players, a) {
                    match find_door(doors, b) {
                        Some(d) => Some(d),
                        None => if find_player(players, b) { find_door(doors, a) } else { None },
                    }
                } else if find_player(players, b) {
                    find_door(doors, a)
                } else {
                    None
                };
                if let Some(d) = door {
                    if doors[d].status.is_open {
                        assert(completes_level(players@, doors@, events@[k as int]));
                        return true;
                    }
                }
            }
        }
        k += 1;
    }
    false
}

/// Whether the level has been completed; completion happens once.
#[derive(Clone, Copy, Debug, PartialEq, Eq, Structural)]
pub struct LevelCompletion {
    pub completed: bool,
}

impl LevelCompletion {
    /// A level under way.
    pub fn new() -> (r: LevelCompletion)
        ensures
            !r.completed,
    {
        LevelCompletion { completed: false }
    }

    /// Takes in a tick's collision events. Returns whether the level is
    /// completed by them, which happens only if it was not completed
    /// already: the completion fires exactly once.
    pub fn observe(&mut self, events: &Vec<CollisionEvent>, players: &Vec<u64>, doors: &Vec<Door>) -> (fired: bool)
        ensures
            fired == (!old(self).completed
                && exists|k: int| 0 <= k < events@.len() && completes_level(players@, doors@, #[trigger] events@[k])),
            final(self).completed == (old(self).completed || fired),
    {
        if self.completed {
            return false;
        }
        let fired = handle_door_reached_events(events, players, doors);
        self.completed = fired;
        fired
    }
}

} // verus!
