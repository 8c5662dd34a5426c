//! Attacks on enemies, their consequences, and hits on the player.
use vstd::prelude::*;
use crate::components::{AnimationDirection, Mierda, Player, spawned_mierda};
use crate::despawn::{DespawnQueue, PendingRemoval, due_at};
use crate::entity::{EntityId, LevelChild};
use crate::geometry::{Point, UNIT, closer_than, is_closer_than};
use crate::spawning::{clone_sources, plan_clones};

verus! {

/// Reach of the player's attack.
pub const ATTACK_RANGE: i64 = 75 * UNIT;

/// Length of the flashing state that a hit starts on an enemy.
pub const FLASH_MS: u64 = 200;

/// Delay between a hit on an enemy and its removal.
pub const DESPAWN_DELAY_MS: u64 = 300;

/// A hit that leaves this many enemies or more requests no replacements.
pub const POPULATION_CAP: usize = 256;

/// Number of replacements requested after a hit.
pub const SPAWN_BATCH: u32 = 2;

/// Damage a hit does to the player.
pub const PLAYER_HIT_DAMAGE: u32 = 10;

#[derive(Clone, Copy, Debug, PartialEq, Eq, Structural)]
pub struct PlayerAttackEvent {
    pub entity: EntityId,
}

#[derive(Clone, Copy, Debug, PartialEq, Eq, Structural)]
pub struct PlayerHitEvent {
    pub entity: EntityId,
}

#[derive(Clone, Copy, Debug, PartialEq, Eq, Structural)]
pub struct GameOverEvent;

#[derive(Clone, Copy, Debug, PartialEq, Eq, Structural)]
pub struct MierdaHitEvent(pub EntityId);

#[derive(Clone, Copy, Debug, PartialEq, Eq, Structural)]
pub struct SpawnMierdaEvent {
    pub count: u32,
}

/// An enemy as an attack sees it.
#[derive(Clone, Copy, Debug, PartialEq, Eq, Structural)]
pub struct MierdaSighting {
    pub entity: EntityId,
    pub position: Point,
    pub is_dummy: bool,
}

/// `target` lies in the half-plane the player faces, on the facing axis.
pub open spec fn in_facing(facing: AnimationDirection, player: Point, target: Point) -> bool {
    match facing {
        AnimationDirection::Up => player.y < target.y,
        AnimationDirection::Down => player.y > target.y,
        AnimationDirection::Left => player.x > target.x,
        AnimationDirection::Right => player.x < target.x,
    }
}

/// An attack by a player at `player` facing `facing` reaches `target`.
pub open spec fn attack_reaches(facing: AnimationDirection, player: Point, target: Point) -> bool {
    closer_than(player, target, ATTACK_RANGE as int) && in_facing(facing, player, target)
}

/// The hit event for `m` if `m` is a live enemy that the attack reaches.
pub open spec fn hit_by(facing: AnimationDirection, player: Point) -> spec_fn(MierdaSighting) -> Option<MierdaHitEvent> {
    |m: MierdaSighting|
        if !m.is_dummy && attack_reaches(facing, player, m.position) {
            Some(MierdaHitEvent(m.entity))
        } else {
            None
        }
}

/// Whether an attack by a player at `player` facing `facing` hits an enemy at `target`.
pub fn is_mierda_attacked(facing: AnimationDirection, player: Point, target: Point) -> (r: bool)
    ensures
        r == attack_reaches(facing, player, target),
{
    if !is_closer_than(player, target, ATTACK_RANGE) {
        return false;
    }
    match facing {
        AnimationDirection::Up => player.y < target.y,
        AnimationDirection::Down => player.y > target.y,
        AnimationDirection::Left => player.x > target.x,
        AnimationDirection::Right => player.x < target.x,
    }
}

/// The hits of one attack by a player at `player` facing `facing`: one event
/// for each live enemy that the attack reaches, in the order of `mierdas`.
/// Prototypes are never hit.
pub fn event_player_attack(
    facing: AnimationDirection,
    player: Point,
    mierdas: &Vec<MierdaSighting>,
) -> (r: Vec<MierdaHitEvent>)
    ensures
        r@ == mierdas@.filter_map(hit_by(facing, player)),
{
    let mut r: Vec<MierdaHitEvent> = Vec::new();
    let mut i: usize = 0;
    while i < mierdas.len()
        invariant
            i <= mierdas@.len(),
            r@ == mierdas@.take(i as int).filter_map(hit_by(facing, player)),
        decreases mierdas@.len() - i,
    {
        proof {
            mierdas@.lemma_filter_map_take_succ(hit_by(facing, player), i as int);
        }
        let m = mierdas[i];
        if !m.is_dummy && is_mierda_attacked(facing, player, m.position) {
            r.push(MierdaHitEvent(m.entity));
        }
        i = i + 1;
    }
    assert(mierdas@.take(mierdas@.len() as int) =~= mierdas@);
    r
}

/// What `f` yields for an element of `s` is among what `s.filter_map(f)` yields.
proof fn lemma_filter_map_keeps<A, B>(s: Seq<A>, f: spec_fn(A) -> Option<B>, i: int)
    requires
        0 <= i < s.len(),
        f(s[i]) is Some,
    ensures
        s.filter_map(f).contains(f(s[i])->0),
    decreases s.len(),
{
    let rest = s.drop_last();
    if i == s.len() - 1 {
        assert(s.filter_map(f) == rest.filter_map(f) + seq![f(s[i])->0]);
        assert(s.filter_map(f)[rest.filter_map(f).len() as int] == f(s[i])->0);
    } else {
        assert(rest[i] == s[i]);
        lemma_filter_map_keeps(rest, f, i);
        let k = choose|k: int| 0 <= k < rest.filter_map(f).len() && rest.filter_map(f)[k] == f(s[i])->0;
        match f(s.last()) {
            Some(v) => {
                assert(s.filter_map(f) == rest.filter_map(f) + seq![v]);
                assert(s.filter_map(f)[k] == f(s[i])->0);
            },
            None => {},
        }
    }
}

/// An attack by a player at `player` facing `facing` hits an enemy of
/// `mierdas` exactly when that enemy is live, lies strictly within
/// `ATTACK_RANGE` of the player, and lies on the side the player faces:
/// above for `Up`, below for `Down`, to the left for `Left` and to the right
/// for `Right`. Entities are listed once each.
pub proof fn lemma_attack_hits_exactly(
    facing: AnimationDirection,
    player: Point,
    mierdas: Seq<MierdaSighting>,
    i: int,
)
    requires
        0 <= i < mierdas.len(),
        forall|j: int, k: int|
            0 <= j < mierdas.len() && 0 <= k < mierdas.len() && j != k ==> #[trigger] mierdas[j].entity
                != #[trigger] mierdas[k].entity,
    ensures
        mierdas.filter_map(hit_by(facing, player)).contains(MierdaHitEvent(mierdas[i].entity)) <==> {
            &&& !mierdas[i].is_dummy
            &&& closer_than(player, mierdas[i].position, ATTACK_RANGE as int)
            &&& match facing {
                AnimationDirection::Up => player.y < mierdas[i].position.y,
                AnimationDirection::Down => player.y > mierdas[i].position.y,
                AnimationDirection::Left => player.x > mierdas[i].position.x,
                AnimationDirection::Right => player.x < mierdas[i].position.x,
            }
        },
{
    let f = hit_by(facing, player);
    let e = MierdaHitEvent(mierdas[i].entity);
    if mierdas.filter_map(f).contains(e) {
        mierdas.lemma_filter_map_contains(f, e);
        let t = choose|t: MierdaSighting| mierdas.contains(t) && f(t) == Some(e);
        let j = choose|j: int| 0 <= j < mierdas.len() && mierdas[j] == t;
        assert(mierdas[j].entity == mierdas[i].entity);
    }
    if f(mierdas[i]) is Some {
        lemma_filter_map_keeps(mierdas, f, i);
    }
}

/// The replacement request that a hit brings when `remaining` enemies are
/// left once the hit enemy is removed.
pub open spec fn replacement_for(remaining: nat) -> Option<SpawnMierdaEvent> {
    if remaining < POPULATION_CAP {
        Some(SpawnMierdaEvent { count: SPAWN_BATCH })
    } else {
        None
    }
}

/// The deadline of a removal scheduled at `now_ms`.
pub open spec fn removal_deadline(now_ms: u64) -> u64 {
    if now_ms + DESPAWN_DELAY_MS > u64::MAX {
        u64::MAX
    } else {
        (now_ms + DESPAWN_DELAY_MS) as u64
    }
}

/// Handles a hit on the enemy `target`, whose state is `mierda`, at `now_ms`
/// while `population` enemies exist, `target` among them: starts its flashing
/// timer, schedules its removal after `DESPAWN_DELAY_MS`, and requests
/// `SPAWN_BATCH` replacements while the enemies left after that removal stay
/// under `POPULATION_CAP`. Its knockback is a change of velocity and is
/// applied by the caller.
pub fn event_mierda_hit(
    now_ms: u64,
    population: usize,
    target: EntityId,
    mierda: &mut Mierda,
    removals: &mut DespawnQueue,
) -> (r: Option<SpawnMierdaEvent>)
    requires
        population >= 1,
    ensures
        *final(mierda) == (Mierda { hit_at: Some(FLASH_MS), ..*old(mierda) }),
        final(removals)@ == old(removals)@.push(
            PendingRemoval { entity: target, deadline_ms: removal_deadline(now_ms) },
        ),
        r == replacement_for((population - 1) as nat),
{
    mierda.hit_at = Some(FLASH_MS);
    removals.schedule(target, now_ms, DESPAWN_DELAY_MS);
    if population - 1 < POPULATION_CAP {
        Some(SpawnMierdaEvent { count: SPAWN_BATCH })
    } else {
        None
    }
}

/// A removal scheduled by a hit is handed back by the first call of
/// `take_due` at or after its deadline, after the removals scheduled before
/// it; before its deadline it is not.
pub proof fn lemma_hit_target_removed_after_delay(
    scheduled: Seq<PendingRemoval>,
    target: EntityId,
    now_ms: u64,
    later_ms: u64,
)
    ensures
        later_ms >= removal_deadline(now_ms) ==> scheduled.push(
            PendingRemoval { entity: target, deadline_ms: removal_deadline(now_ms) },
        ).filter_map(due_at(later_ms)) == scheduled.filter_map(due_at(later_ms)).push(target),
        later_ms < removal_deadline(now_ms) ==> scheduled.push(
            PendingRemoval { entity: target, deadline_ms: removal_deadline(now_ms) },
        ).filter_map(due_at(later_ms)) == scheduled.filter_map(due_at(later_ms)),
{
    let s = scheduled.push(PendingRemoval { entity: target, deadline_ms: removal_deadline(now_ms) });
    assert(s.drop_last() =~= scheduled);
    assert(s.filter_map(due_at(later_ms)) =~= if later_ms >= removal_deadline(now_ms) {
        scheduled.filter_map(due_at(later_ms)) + seq![target]
    } else {
        scheduled.filter_map(due_at(later_ms))
    });
    assert(scheduled.filter_map(due_at(later_ms)) + seq![target]
        =~= scheduled.filter_map(due_at(later_ms)).push(target));
}

/// The player's health after one hit that starts at `health`.
pub open spec fn health_after_hit(health: nat) -> nat {
    if health < PLAYER_HIT_DAMAGE {
        health
    } else {
        (health - PLAYER_HIT_DAMAGE) as nat
    }
}

/// The player's health after `hits` hits that start at `health`.
pub open spec fn health_after_hits(health: nat, hits: nat) -> nat
    decreases hits,
{
    if hits == 0 {
        health
    } else {
        health_after_hit(health_after_hits(health, (hits - 1) as nat))
    }
}

/// Handles a hit on the player: below `PLAYER_HIT_DAMAGE` health the game is
/// over and health stays as it is; otherwise health drops by the damage.
pub fn event_player_hit(player: &mut Player) -> (r: Option<GameOverEvent>)
    ensures
        final(player).health == health_after_hit(old(player).health as nat),
        r is Some <==> old(player).health < PLAYER_HIT_DAMAGE,
        old(player).wf() ==> final(player).wf(),
{
    if player.health < PLAYER_HIT_DAMAGE {
        Some(GameOverEvent)
    } else {
        player.health = player.health - PLAYER_HIT_DAMAGE;
        None
    }
}

/// Hits never take the player's health below zero: each one removes exactly
/// `PLAYER_HIT_DAMAGE` while health allows it, and once health is under the
/// damage every further hit ends the game and leaves health unchanged.
pub proof fn lemma_health_floor(health: nat, hits: nat)
    ensures
        PLAYER_HIT_DAMAGE * hits <= health ==> health_after_hits(health, hits) == health
            - PLAYER_HIT_DAMAGE * hits,
        health < PLAYER_HIT_DAMAGE * hits ==> health_after_hits(health, hits) < PLAYER_HIT_DAMAGE,
        health < PLAYER_HIT_DAMAGE * hits ==> health_after_hits(health, hits + 1)
            == health_after_hits(health, hits),
        health_after_hits(health, hits) < PLAYER_HIT_DAMAGE <==> health < PLAYER_HIT_DAMAGE * (
        hits + 1),
    decreases hits,
{
    if hits > 0 {
        lemma_health_floor(health, (hits - 1) as nat);
    }
}

/// A new enemy: the prototype it is copied from, and the state that
/// overrides the copied one.
#[derive(Clone, Copy, Debug, PartialEq, Eq, Structural)]
pub struct MierdaSpawn {
    pub source: EntityId,
    pub state: Mierda,
}

/// The new enemies for one `SpawnMierdaEvent`, in spawn order: one copy of
/// each prototype under `level` per requested unit, each starting as a live
/// enemy at full health.
pub fn event_spawn_mierda(ev: &SpawnMierdaEvent, level: EntityId, children: &Vec<LevelChild>) -> (r:
    Vec<MierdaSpawn>)
    ensures
        r@.len() == clone_sources(children@, level, ev.count as nat).len(),
        forall|i: int|
            0 <= i < r@.len() ==> #[trigger] r@[i] == (MierdaSpawn {
                source: clone_sources(children@, level, ev.count as nat)[i],
                state: spawned_mierda(),
            }),
{
    let sources = plan_clones(ev.count, level, children);
    let mut r: Vec<MierdaSpawn> = Vec::new();
    let mut i: usize = 0;
    while i < sources.len()
        invariant
            i <= sources@.len(),
            sources@ == clone_sources(children@, level, ev.count as nat),
            r@.len() == i,
            forall|j: int|
                0 <= j < i ==> #[trigger] r@[j] == (MierdaSpawn {
                    source: sources@[j],
                    state: spawned_mierda(),
                }),
        decreases sources@.len() - i,
    {
        r.push(MierdaSpawn { source: sources[i], state: Mierda::spawned() });
        i = i + 1;
    }
    r
}

} // verus!
