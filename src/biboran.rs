//! Collectibles ("biborans"): spawning, placement, and contact with the player.
use vstd::prelude::*;
use crate::entity::{EntityId, LevelChild};
use crate::geometry::{Point, UNIT, closer_than, is_closer_than};
use crate::spawning::{clone_sources, plan_clones};

verus! {

/// The smallest distance from the player at which a collectible is placed.
pub const MIN_PLAYER_DISTANCE: i64 = 50 * UNIT;

/// The margin a collectible keeps from each edge of the level.
pub const LEVEL_MARGIN: i64 = 24 * UNIT;

/// A collectible. A level holds one prototype (`is_dummy`), from which live
/// instances are copied.
#[derive(Clone, Copy, Debug, PartialEq, Eq, Structural)]
pub struct Biboran {
    pub is_dummy: bool,
}

/// The state a live collectible starts from when it is copied from a prototype.
pub open spec fn spawned_biboran() -> Biboran {
    Biboran { is_dummy: false }
}

impl Biboran {
    /// The state a live instance starts from when it is copied from a prototype.
    pub fn spawned() -> (r: Biboran)
        ensures
            r == spawned_biboran(),
    {
        Biboran { is_dummy: false }
    }
}

/// A collectible as contact handling sees it.
#[derive(Clone, Copy, Debug, PartialEq, Eq, Structural)]
pub struct BiboranSighting {
    pub entity: EntityId,
    pub is_dummy: bool,
}

/// A new collectible: the prototype it is copied from, the state that
/// overrides the copied one, and where it is placed.
#[derive(Clone, Copy, Debug, PartialEq, Eq, Structural)]
pub struct BiboranSpawn {
    pub source: EntityId,
    pub state: Biboran,
    pub position: Point,
}

/// The player stepped over the collectible it names.
#[derive(Clone, Copy, Debug, PartialEq, Eq, Structural)]
pub struct BiboranStepOverEvent(pub EntityId);

#[derive(Clone, Copy, Debug, PartialEq, Eq, Structural)]
pub struct SpawnBiboranEvent {
    pub count: u32,
}

/// The size of a level in pixels.
#[derive(Clone, Copy, Debug, PartialEq, Eq, Structural)]
pub struct LevelSize {
    pub px_wid: i32,
    pub px_hei: i32,
}

/// Contact between two bodies of the physics world beginning or ending.
#[derive(Clone, Copy, Debug, PartialEq, Eq, Structural)]
pub enum CollisionEvent {
    Started(EntityId, EntityId),
    Stopped(EntityId, EntityId),
}

/// `c` keeps `MIN_PLAYER_DISTANCE` from the player and lies inside the level
/// less `LEVEL_MARGIN` on every side.
pub open spec fn placement_ok(player: Point, c: Point, level: LevelSize) -> bool {
    &&& !closer_than(player, c, MIN_PLAYER_DISTANCE as int)
    &&& LEVEL_MARGIN <= c.x <= level.px_wid * UNIT - LEVEL_MARGIN
    &&& LEVEL_MARGIN <= c.y <= level.px_hei * UNIT - LEVEL_MARGIN
}

/// Whether a candidate position `c` for a new collectible may be taken, with
/// the player at `player`, in a level of size `level`. A spawner draws
/// candidates around the player until one is taken.
pub fn placement_accepted(player: Point, c: Point, level: LevelSize) -> (r: bool)
    ensures
        r == placement_ok(player, c, level),
{
    let max_x: i64 = level.px_wid as i64 * UNIT - LEVEL_MARGIN;
    let max_y: i64 = level.px_hei as i64 * UNIT - LEVEL_MARGIN;
    !is_closer_than(player, c, MIN_PLAYER_DISTANCE) && LEVEL_MARGIN <= c.x && c.x <= max_x
        && LEVEL_MARGIN <= c.y && c.y <= max_y
}

/// `positions` are taken as the places of the clones that `sources` lists.
pub open spec fn placements_fit(
    sources: Seq<EntityId>,
    positions: Seq<Point>,
    player: Point,
    level: LevelSize,
) -> bool {
    &&& positions.len() == sources.len()
    &&& forall|i: int| 0 <= i < positions.len() ==> placement_ok(player, #[trigger] positions[i], level)
}

/// The new collectibles for one `SpawnBiboranEvent`, in spawn order: one copy
/// of each prototype under `level` per requested unit, each a live
/// collectible at the matching entry of `positions`, with the player at
/// `player`. A spawner draws `positions` around the player, one taken by
/// `placement_accepted` for each clone that `plan_clones` lists. `None` when
/// their number is not that of the clones, or one of them is not taken.
pub fn event_spawn_biboran(
    ev: &SpawnBiboranEvent,
    level: EntityId,
    children: &Vec<LevelChild>,
    player: Point,
    size: LevelSize,
    positions: &Vec<Point>,
) -> (r: Option<Vec<BiboranSpawn>>)
    ensures
        r is Some <==> placements_fit(
            clone_sources(children@, level, ev.count as nat),
            positions@,
            player,
            size,
        ),
        r is Some ==> r->0@.len() == positions@.len(),
        r is Some ==> forall|i: int|
            0 <= i < r->0@.len() ==> #[trigger] r->0@[i] == (BiboranSpawn {
                source: clone_sources(children@, level, ev.count as nat)[i],
                state: spawned_biboran(),
                position: positions@[i],
            }),
        r is Some ==> forall|i: int|
            0 <= i < r->0@.len() ==> placement_ok(player, #[trigger] r->0@[i].position, size),
{
    let sources = plan_clones(ev.count, level, children);
    if sources.len() != positions.len() {
        return None;
    }
    let mut r: Vec<BiboranSpawn> = Vec::new();
    let mut i: usize = 0;
    while i < sources.len()
        invariant
            i <= sources@.len(),
            sources@.len() == positions@.len(),
            sources@ == clone_sources(children@, level, ev.count as nat),
            r@.len() == i,
            forall|j: int| 0 <= j < i ==> placement_ok(player, #[trigger] positions@[j], size),
            forall|j: int|
                0 <= j < i ==> #[trigger] r@[j] == (BiboranSpawn {
                    source: sources@[j],
                    state: spawned_biboran(),
                    position: positions@[j],
                }),
        decreases sources@.len() - i,
    {
        let position = positions[i];
        if !placement_accepted(player, position, size) {
            return None;
        }
        r.push(BiboranSpawn { source: sources[i], state: Biboran::spawned(), position });
        i = i + 1;
    }
    Some(r)
}

/// `ev` is the start of a contact between `player` and `pizza`, either way
/// round. Entities are matched on their index alone.
pub open spec fn touches(player: EntityId, pizza: EntityId, ev: CollisionEvent) -> bool {
    match ev {
        CollisionEvent::Started(e1, e2) => (e1.index == pizza.index && e2.index == player.index)
            || (e2.index == pizza.index && e1.index == player.index),
        CollisionEvent::Stopped(_, _) => false,
    }
}

/// The collectible `pizza` if it is a live one and `ev` starts its contact
/// with `player`. Prototypes are never stepped over.
pub open spec fn touched_in(player: EntityId, ev: CollisionEvent) -> spec_fn(BiboranSighting) -> Option<
    EntityId,
> {
    |pizza: BiboranSighting|
        if !pizza.is_dummy && touches(player, pizza.entity, ev) {
            Some(pizza.entity)
        } else {
            None
        }
}

/// Every collectible that `events` show the player stepping onto, event by
/// event, and within one event in the order of `pizzas`.
pub open spec fn step_overs(player: EntityId, pizzas: Seq<BiboranSighting>, events: Seq<CollisionEvent>) -> Seq<
    EntityId,
>
    decreases events.len(),
{
    if events.len() == 0 {
        Seq::empty()
    } else {
        step_overs(player, pizzas, events.drop_last()) + pizzas.filter_map(
            touched_in(player, events.last()),
        )
    }
}

/// What `s.filter_map(f)` yields for a prefix of `s` begins what it yields for `s`.
proof fn lemma_filter_map_prefix<A, B>(s: Seq<A>, f: spec_fn(A) -> Option<B>, k: int)
    requires
        0 <= k <= s.len(),
    ensures
        s.take(k).filter_map(f).len() <= s.filter_map(f).len(),
        forall|i: int|
            0 <= i < s.take(k).filter_map(f).len() ==> #[trigger] s.filter_map(f)[i] == s.take(
                k,
            ).filter_map(f)[i],
    decreases s.len(),
{
    if k == s.len() {
        assert(s.take(k) =~= s);
    } else {
        assert(s.take(k) =~= s.drop_last().take(k));
        lemma_filter_map_prefix(s.drop_last(), f, k);
    }
}

/// The event for the first live collectible that `events` show `player` stepping
/// onto, looking at the events in order and, within one, at `pizzas` in
/// order; `None` if there is none.
pub fn handle_player_biboran_collision(
    player: EntityId,
    pizzas: &Vec<BiboranSighting>,
    events: &Vec<CollisionEvent>,
) -> (r: Option<BiboranStepOverEvent>)
    ensures
        r == (if step_overs(player, pizzas@, events@).len() > 0 {
            Some(BiboranStepOverEvent(step_overs(player, pizzas@, events@)[0]))
        } else {
            None
        }),
{
    let mut i: usize = 0;
    while i < events.len()
        invariant
            i <= events@.len(),
            step_overs(player, pizzas@, events@.take(i as int)).len() == 0,
        decreases events@.len() - i,
    {
        let ev = events[i];
        let ghost f = touched_in(player, ev);
        assert(events@.take(i + 1).drop_last() =~= events@.take(i as int));
        let mut j: usize = 0;
        while j < pizzas.len()
            invariant
                i < events@.len(),
                ev == events@[i as int],
                f == touched_in(player, ev),
                j <= pizzas@.len(),
                pizzas@.take(j as int).filter_map(f).len() == 0,
                step_overs(player, pizzas@, events@.take(i as int)).len() == 0,
                step_overs(player, pizzas@, events@.take(i + 1)) == step_overs(
                    player,
                    pizzas@,
                    events@.take(i as int),
                ) + pizzas@.filter_map(f),
            decreases pizzas@.len() - j,
        {
            proof {
                pizzas@.lemma_filter_map_take_succ(f, j as int);
            }
            let p = pizzas[j];
            let hit = !p.is_dummy && match ev {
                CollisionEvent::Started(e1, e2) => (e1.index == p.entity.index && e2.index
                    == player.index) || (e2.index == p.entity.index && e1.index == player.index),
                CollisionEvent::Stopped(_, _) => false,
            };
            if hit {
                proof {
                    lemma_filter_map_prefix(pizzas@, f, j + 1);
                    lemma_step_overs_prefix(player, pizzas@, events@, i + 1);
                    assert(pizzas@.take(j + 1).filter_map(f)[0] == p.entity);
                }
                return Some(BiboranStepOverEvent(p.entity));
            }
            j = j + 1;
        }
        proof {
            assert(pizzas@.take(pizzas@.len() as int) =~= pizzas@);
            assert(step_overs(player, pizzas@, events@.take(i + 1)) =~= step_overs(
                player,
                pizzas@,
                events@.take(i as int),
            ) + pizzas@.filter_map(f));
        }
        i = i + 1;
    }
    assert(events@.take(events@.len() as int) =~= events@);
    None
}

/// What `step_overs` yields for a prefix of the events begins what it yields
/// for all of them.
proof fn lemma_step_overs_prefix(
    player: EntityId,
    pizzas: Seq<BiboranSighting>,
    events: Seq<CollisionEvent>,
    k: int,
)
    requires
        0 <= k <= events.len(),
    ensures
        step_overs(player, pizzas, events.take(k)).len() <= step_overs(player, pizzas, events).len(),
        forall|i: int|
            0 <= i < step_overs(player, pizzas, events.take(k)).len() ==> #[trigger] step_overs(
                player,
                pizzas,
                events,
            )[i] == step_overs(player, pizzas, events.take(k))[i],
    decreases events.len(),
{
    if k == events.len() {
        assert(events.take(k) =~= events);
    } else {
        assert(events.take(k) =~= events.drop_last().take(k));
        lemma_step_overs_prefix(player, pizzas, events.drop_last(), k);
    }
}

/// The live collectible named `target`, if `p` is it.
pub open spec fn named(target: EntityId) -> spec_fn(BiboranSighting) -> Option<EntityId> {
    |p: BiboranSighting|
        if !p.is_dummy && p.entity == target {
            Some(p.entity)
        } else {
            None
        }
}

/// The collectibles to remove when the player steps over `ev.0`: the live
/// ones of `pizzas` that are that entity. A prototype is never removed.
pub fn event_on_biboran_step_over(ev: &BiboranStepOverEvent, pizzas: &Vec<BiboranSighting>) -> (r:
    Vec<EntityId>)
    ensures
        r@ == pizzas@.filter_map(named(ev.0)),
{
    let mut r: Vec<EntityId> = Vec::new();
    let mut i: usize = 0;
    while i < pizzas.len()
        invariant
            i <= pizzas@.len(),
            r@ == pizzas@.take(i as int).filter_map(named(ev.0)),
        decreases pizzas@.len() - i,
    {
        proof {
            pizzas@.lemma_filter_map_take_succ(named(ev.0), i as int);
        }
        let p = pizzas[i];
        if !p.is_dummy && p.entity == ev.0 {
            r.push(p.entity);
        }
        i = i + 1;
    }
    assert(pizzas@.take(pizzas@.len() as int) =~= pizzas@);
    r
}

} // verus!
