//! The contact tracker: for each tracked entity, the set of entities it is
//! touching, kept from the collision events of each tick.
use vstd::prelude::*;
use std::collections::{HashMap, HashSet};
use crate::collision::CollisionEvent;

verus! {

broadcast use vstd::std_specs::hash::group_hash_axioms;

/// Contact sets keyed by entity.
pub struct ContactTracker {
    contacts: HashMap<u64, HashSet<u64>>,
}

/// One collision event applied to contact sets: a start adds each entity to
/// the other's set when both are tracked and distinct; a stop removes each
/// from the other's set, on whichever side is still tracked.
pub open spec fn contact_event(m: Map<u64, Set<u64>>, ev: CollisionEvent) -> Map<u64, Set<u64>> {
    match ev {
        CollisionEvent::Started { a, b, .. } => if m.contains_key(a) && m.contains_key(b) && a != b {
            m.insert(a, m[a].insert(b)).insert(b, m[b].insert(a))
        } else {
            m
        },
        CollisionEvent::Stopped { a, b, .. } => {
            let m1 = if m.contains_key(b) { m.insert(b, m[b].remove(a)) } else { m };
            if m1.contains_key(a) { m1.insert(a, m1[a].remove(b)) } else { m1 }
        },
    }
}

/// A batch of collision events applied in order.
pub open spec fn contact_events(m: Map<u64, Set<u64>>, evs: Seq<CollisionEvent>) -> Map<u64, Set<u64>>
    decreases evs.len(),
{
    if evs.len() == 0 {
        m
    } else {
        contact_event(contact_events(m, evs.drop_last()), evs.last())
    }
}

/// Among tracked entities, contact is mutual.
pub open spec fn symmetric(m: Map<u64, Set<u64>>) -> bool {
    forall|a: u64, b: u64| #![trigger m[a].contains(b), m[b].contains(a)]
        m.contains_key(a) && m.contains_key(b) ==> (m[a].contains(b) <==> m[b].contains(a))
}

impl View for ContactTracker {
    type V = Map<u64, Set<u64>>;

    closed spec fn view(&self) -> Map<u64, Set<u64>> {
        Map::new(|k: u64| self.contacts@.contains_key(k), |k: u64| self.contacts@[k]@)
    }
}

impl ContactTracker {
    /// A tracker with no entity.
    pub fn new() -> (r: ContactTracker)
        ensures
            r@ == Map::<u64, Set<u64>>::empty(),
    {
        let r = ContactTracker { contacts: HashMap::new() };
        assert(r@ =~= Map::<u64, Set<u64>>::empty());
        r
    }

    /// Whether `e` is tracked.
    pub fn is_tracked(&self, e: u64) -> (r: bool)
        ensures
            r == self@.contains_key(e),
    {
        self.contacts.contains_key(&e)
    }

    /// Whether tracked entity `a` is touching `b`.
    pub fn in_contact(&self, a: u64, b: u64) -> (r: bool)
        ensures
            r == (self@.contains_key(a) && self@[a].contains(b)),
    {
        match self.contacts.get(&a) {
            Some(s) => s.contains(&b),
            None => false,
        }
    }

    /// Starts tracking `e`, touching nothing; an entity already tracked
    /// keeps its contacts.
    pub fn track(&mut self, e: u64)
        ensures
            old(self)@.contains_key(e) ==> final(self)@ == old(self)@,
            !old(self)@.contains_key(e) ==> final(self)@ == old(self)@.insert(e, Set::<u64>::empty()),
    {
        if !self.contacts.contains_key(&e) {
            self.contacts.insert(e, HashSet::new());
            assert(self@ =~= old(self)@.insert(e, Set::<u64>::empty()));
        }
    }

    /// Stops tracking `e`, as when it is destroyed.
    pub fn untrack(&mut self, e: u64)
        ensures
            final(self)@ == old(self)@.remove(e),
    {
        self.contacts.remove(&e);
        assert(self@ =~= old(self)@.remove(e));
    }

    /// Applies one collision event.
    pub fn apply_event(&mut self, ev: CollisionEvent)
        ensures
            final(self)@ == contact_event(old(self)@, ev),
    {
        match ev {
            CollisionEvent::Started { a, b, .. } => {
                if a != b && self.contacts.contains_key(&a) && self.contacts.contains_key(&b) {
                    let mut sa = self.contacts.remove(&a).unwrap();
                    sa.insert(b);
                    self.contacts.insert(a, sa);
                    let mut sb = self.contacts.remove(&b).unwrap();
                    sb.insert(a);
                    self.contacts.insert(b, sb);
                    assert(self@ =~= contact_event(old(self)@, ev));
                }
            },
            CollisionEvent::Stopped { a, b, .. } => {
                let ghost m0 = self@;
                if self.contacts.contains_key(&b) {
                    let mut sb = self.contacts.remove(&b).unwrap();
                    sb.remove(&a);
                    self.contacts.insert(b, sb);
                }
                let ghost m1 = if m0.contains_key(b) { m0.insert(b, m0[b].remove(a)) } else { m0 };
                assert(self@ =~= m1);
                if self.contacts.contains_key(&a) {
                    let mut sa = self.contacts.remove(&a).unwrap();
                    sa.remove(&b);
                    self.contacts.insert(a, sa);
                }
                assert(self@ =~= contact_event(old(self)@, ev));
            },
        }
    }

    /// Applies a tick's collision events in order.
    pub fn maintain_contact_lists(&mut self, events: &Vec<CollisionEvent>)
        ensures
            final(self)@ == contact_events(old(self)@, events@),
    {
        let mut i: usize = 0;
        while i < events.len()
            invariant
                i <= events@.len(),
                self@ == contact_events(old(self)@, events@.subrange(0, i as int)),
            decreases events@.len() - i,
        {
            self.apply_event(events[i]);
            assert(events@.subrange(0, i + 1).drop_last() =~= events@.subrange(0, i as int));
            i += 1;
        }
        assert(events@.subrange(0, events@.len() as int) =~= events@);
    }
}

/// Collision events keep contact mutual among tracked entities.
pub proof fn lemma_contact_event_symmetric(m: Map<u64, Set<u64>>, ev: CollisionEvent)
    requires
        symmetric(m),
    ensures
        symmetric(contact_event(m, ev)),
{
    let r = contact_event(m, ev);
    assert forall|x: u64, y: u64| r.contains_key(x) && r.contains_key(y) implies
        (r[x].contains(y) <==> r[y].contains(x)) by {
        assert(m.contains_key(x) && m.contains_key(y));
        assert(m[x].contains(y) <==> m[y].contains(x));
    }
}

/// A batch of collision events keeps contact mutual among tracked entities.
pub proof fn lemma_contact_events_symmetric(m: Map<u64, Set<u64>>, evs: Seq<CollisionEvent>)
    requires
        symmetric(m),
    ensures
        symmetric(contact_events(m, evs)),
    decreases evs.len(),
{
    if evs.len() > 0 {
        lemma_contact_events_symmetric(m, evs.drop_last());
        lemma_contact_event_symmetric(contact_events(m, evs.drop_last()), evs.last());
    }
}

/// Destroying an entity keeps contact mutual among those left.
pub proof fn lemma_untrack_symmetric(m: Map<u64, Set<u64>>, e: u64)
    requires
        symmetric(m),
    ensures
        symmetric(m.remove(e)),
{
    let r = m.remove(e);
    assert forall|x: u64, y: u64| r.contains_key(x) && r.contains_key(y) implies
        (r[x].contains(y) <==> r[y].contains(x)) by {
        assert(m[x].contains(y) <==> m[y].contains(x));
    }
}

/// Tracking a new entity that no contact set lists keeps contact mutual.
pub proof fn lemma_track_symmetric(m: Map<u64, Set<u64>>, e: u64)
    requires
        symmetric(m),
        !m.contains_key(e),
        forall|k: u64| #[trigger] m.contains_key(k) ==> !m[k].contains(e),
    ensures
        symmetric(m.insert(e, Set::<u64>::empty())),
{
    let r = m.insert(e, Set::<u64>::empty());
    assert forall|x: u64, y: u64| r.contains_key(x) && r.contains_key(y) implies
        (r[x].contains(y) <==> r[y].contains(x)) by {
        if x != e && y != e {
            assert(m[x].contains(y) <==> m[y].contains(x));
        } else if x == e && y != e {
            assert(!m[y].contains(e));
        } else if y == e && x != e {
            assert(!m[x].contains(e));
        }
    }
}

} // verus!
