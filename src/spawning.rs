//! Spawning live instances from the prototypes that a level holds.
use vstd::prelude::*;
use crate::entity::{EntityId, LevelChild};

verus! {

/// The prototype entity of `c` if it is a prototype hanging under `level`.
pub open spec fn prototype_under(level: EntityId) -> spec_fn(LevelChild) -> Option<EntityId> {
    |c: LevelChild| if c.is_dummy && c.parent == level { Some(c.entity) } else { None }
}

/// The prototypes under `level`, in the order in which `children` lists them.
pub open spec fn prototypes(children: Seq<LevelChild>, level: EntityId) -> Seq<EntityId> {
    children.filter_map(prototype_under(level))
}

/// The source of each clone that a request for `count` more instances makes:
/// `count` rounds, each of which clones every prototype under `level` once.
pub open spec fn clone_sources(children: Seq<LevelChild>, level: EntityId, count: nat) -> Seq<
    EntityId,
>
    decreases count,
{
    if count == 0 {
        Seq::empty()
    } else {
        clone_sources(children, level, (count - 1) as nat) + prototypes(children, level)
    }
}

/// Lists, in spawn order, the prototype that each new instance is copied from
/// when `count` more instances are requested for the level entity `level`.
pub fn plan_clones(count: u32, level: EntityId, children: &Vec<LevelChild>) -> (r: Vec<EntityId>)
    ensures
        r@ == clone_sources(children@, level, count as nat),
{
    let mut r: Vec<EntityId> = Vec::new();
    let mut round: u32 = 0;
    while round < count
        invariant
            round <= count,
            r@ == clone_sources(children@, level, round as nat),
        decreases count - round,
    {
        let ghost before = r@;
        let mut i: usize = 0;
        while i < children.len()
            invariant
                i <= children@.len(),
                r@ == before + children@.take(i as int).filter_map(prototype_under(level)),
            decreases children@.len() - i,
        {
            proof {
                children@.lemma_filter_map_take_succ(prototype_under(level), i as int);
            }
            let c = children[i];
            if c.is_dummy && c.parent == level {
                r.push(c.entity);
            }
            i = i + 1;
        }
        assert(children@.take(children@.len() as int) =~= children@);
        round = round + 1;
    }
    r
}

} // verus!
