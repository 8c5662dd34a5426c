//! Identity of world entities as the rules see them.
use vstd::prelude::*;

verus! {

/// A world entity: its slot index and the generation of that slot.
#[derive(Clone, Copy, Debug, PartialEq, Eq, Structural)]
pub struct EntityId {
    pub index: u32,
    pub generation: u32,
}

impl EntityId {
    pub fn new(index: u32, generation: u32) -> (r: EntityId)
        ensures
            r.index == index,
            r.generation == generation,
    {
        EntityId { index, generation }
    }
}

/// An entity placed under a level, as a spawner sees it: the entity, the
/// level entity it hangs under, and whether it is a spawn prototype.
#[derive(Clone, Copy, Debug, PartialEq, Eq, Structural)]
pub struct LevelChild {
    pub entity: EntityId,
    pub parent: EntityId,
    pub is_dummy: bool,
}

} // verus!
