//! Collision events as the physics step reports them, between two entities
//! named by their 64-bit identity.
use vstd::prelude::*;

verus! {

/// Two colliders began or stopped touching; `sensor` tells whether one of
/// them is a sensor, which detects without pushing.
#[derive(Clone, Copy, Debug, PartialEq, Eq, Structural)]
pub enum CollisionEvent {
    Started { a: u64, b: u64, sensor: bool },
    Stopped { a: u64, b: u64, sensor: bool },
}

/// The collision events of a run, kept in order so that several consumers
/// can each read all of them.
pub struct CollisionLog {
    events: Vec<CollisionEvent>,
}

/// How far one consumer has read a `CollisionLog`.
#[derive(Clone, Copy, Debug, PartialEq, Eq, Structural)]
pub struct EventCursor {
    pub next: usize,
}

impl View for CollisionLog {
    type V = Seq<CollisionEvent>;

    closed spec fn view(&self) -> Seq<CollisionEvent> {
        self.events@
    }
}

impl EventCursor {
    /// A cursor that has read nothing.
    pub fn new() -> (r: EventCursor)
        ensures
            r.next == 0,
    {
        EventCursor { next: 0 }
    }
}

impl CollisionLog {
    /// An empty log.
    pub fn new() -> (r: CollisionLog)
        ensures
            r@ == Seq::<CollisionEvent>::empty(),
    {
        CollisionLog { events: Vec::new() }
    }

    /// Appends the events of one physics step.
    pub fn send(&mut self, ev: CollisionEvent)
        ensures
            final(self)@ == old(self)@.push(ev),
    {
        self.events.push(ev);
    }

    /// The events that `cursor` has not read yet, in order; afterwards the
    /// cursor has read all of them. Other cursors are unaffected, so each
    /// consumer sees every event.
    pub fn read(&self, cursor: &mut EventCursor) -> (r: Vec<CollisionEvent>)
        ensures
            old(cursor).next <= self@.len() ==> r@ == self@.subrange(old(cursor).next as int, self@.len() as int),
            old(cursor).next > self@.len() ==> r@ == Seq::<CollisionEvent>::empty(),
            final(cursor).next == self@.len(),
    {
        let mut r: Vec<CollisionEvent> = Vec::new();
        if cursor.next > self.events.len() {
            cursor.next = self.events.len();
            return r;
        }
        let start = cursor.next;
        let mut i: usize = start;
        while i < self.events.len()
            invariant
                start == old(cursor).next,
                start <= i <= self@.len(),
                self@ == self.events@,
                r@ == self@.subrange(start as int, i as int),
            decreases self@.len() - i,
        {
            r.push(self.events[i]);
            i += 1;
            assert(r@ =~= self@.subrange(start as int, i as int));
        }
        cursor.next = self.events.len();
        r
    }
}

} // verus!
