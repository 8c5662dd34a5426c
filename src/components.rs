//! Gameplay state carried by the player and by enemies.
use vstd::prelude::*;

verus! {

/// Health of a freshly spawned enemy, and the player's starting health.
pub const FULL_HEALTH: u32 = 100;

/// The direction a character faces.
#[derive(Clone, Copy, Debug, PartialEq, Eq, Structural)]
pub enum AnimationDirection {
    Up,
    Down,
    Left,
    Right,
}

/// An enemy ("mierda"). A level holds one prototype (`is_dummy`), from which
/// live instances are copied.
#[derive(Clone, Copy, Debug, PartialEq, Eq, Structural)]
pub struct Mierda {
    pub is_dummy: bool,
    pub health: u32,
    /// Length in milliseconds of the one-shot flashing timer started by the
    /// last hit, if the enemy has been hit.
    pub hit_at: Option<u64>,
}

/// The state a live enemy starts from when it is copied from a prototype.
pub open spec fn spawned_mierda() -> Mierda {
    Mierda { is_dummy: false, health: FULL_HEALTH, hit_at: None }
}

impl Mierda {
    /// The state a live instance starts from when it is copied from a prototype.
    pub fn spawned() -> (r: Mierda)
        ensures
            r == spawned_mierda(),
    {
        Mierda { is_dummy: false, health: FULL_HEALTH, hit_at: None }
    }
}

/// The player, with health between 0 and `FULL_HEALTH`.
#[derive(Clone, Copy, Debug, PartialEq, Eq, Structural)]
pub struct Player {
    pub health: u32,
}

impl Player {
    /// Health stays within its bounds.
    pub open spec fn wf(self) -> bool {
        self.health <= FULL_HEALTH
    }

    pub fn new() -> (r: Player)
        ensures
            r.health == FULL_HEALTH,
            r.wf(),
    {
        Player { health: FULL_HEALTH }
    }
}

} // verus!
