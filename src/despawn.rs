//! Timed removals: an entity is scheduled for removal at a deadline and
//! handed back once the clock reaches it.
use vstd::prelude::*;
use crate::entity::EntityId;

verus! {

/// A removal waiting for its deadline, in milliseconds of game time.
#[derive(Clone, Copy, Debug, PartialEq, Eq, Structural)]
pub struct PendingRemoval {
    pub entity: EntityId,
    pub deadline_ms: u64,
}

/// The entity of a removal whose deadline `now_ms` has reached.
pub open spec fn due_at(now_ms: u64) -> spec_fn(PendingRemoval) -> Option<EntityId> {
    |p: PendingRemoval| if p.deadline_ms <= now_ms { Some(p.entity) } else { None }
}

/// A removal whose deadline `now_ms` has not reached yet.
pub open spec fn waiting_at(now_ms: u64) -> spec_fn(PendingRemoval) -> Option<PendingRemoval> {
    |p: PendingRemoval| if p.deadline_ms <= now_ms { None } else { Some(p) }
}

/// Removals in the order in which they were scheduled.
pub struct DespawnQueue {
    pending: Vec<PendingRemoval>,
}

impl View for DespawnQueue {
    type V = Seq<PendingRemoval>;

    closed spec fn view(&self) -> Seq<PendingRemoval> {
        self.pending@
    }
}

impl DespawnQueue {
    pub fn new() -> (r: DespawnQueue)
        ensures
            r@ == Seq::<PendingRemoval>::empty(),
    {
        DespawnQueue { pending: Vec::new() }
    }

    pub fn len(&self) -> (r: usize)
        ensures
            r == self@.len(),
    {
        self.pending.len()
    }

    /// Schedules `entity` for removal `delay_ms` after `now_ms`; a deadline
    /// past the end of the clock is held at its last value.
    pub fn schedule(&mut self, entity: EntityId, now_ms: u64, delay_ms: u64)
        ensures
            final(self)@ == old(self)@.push(
                PendingRemoval {
                    entity,
                    deadline_ms: if now_ms + delay_ms > u64::MAX {
                        u64::MAX
                    } else {
                        (now_ms + delay_ms) as u64
                    },
                },
            ),
    {
        let deadline_ms = now_ms.saturating_add(delay_ms);
        self.pending.push(PendingRemoval { entity, deadline_ms });
    }

    /// Hands back, in scheduling order, every entity whose deadline `now_ms`
    /// has reached, and keeps the others in their order.
    pub fn take_due(&mut self, now_ms: u64) -> (r: Vec<EntityId>)
        ensures
            r@ == old(self)@.filter_map(due_at(now_ms)),
            final(self)@ == old(self)@.filter_map(waiting_at(now_ms)),
    {
        let mut due: Vec<EntityId> = Vec::new();
        let mut kept: Vec<PendingRemoval> = Vec::new();
        let mut i: usize = 0;
        while i < self.pending.len()
            invariant
                i <= self.pending@.len(),
                due@ == self.pending@.take(i as int).filter_map(due_at(now_ms)),
                kept@ == self.pending@.take(i as int).filter_map(waiting_at(now_ms)),
            decreases self.pending@.len() - i,
        {
            proof {
                self.pending@.lemma_filter_map_take_succ(due_at(now_ms), i as int);
                self.pending@.lemma_filter_map_take_succ(waiting_at(now_ms), i as int);
            }
            let p = self.pending[i];
            if p.deadline_ms <= now_ms {
                due.push(p.entity);
            } else {
                kept.push(p);
            }
            i = i + 1;
        }
        assert(self.pending@.take(self.pending@.len() as int) =~= self.pending@);
        self.pending = kept;
        due
    }
}

} // verus!
