//! Gameplay rules of a top-down action game: attack resolution against
//! enemies, damage to the player, spawning from level-authored prototypes,
//! placement of collectibles, contact handling and timed removal.
//!
//! World positions are fixed-point integers (see `geometry`), so every rule
//! here is stated and proved over exact arithmetic.
use vstd::prelude::*;

pub mod biboran;
pub mod components;
pub mod despawn;
pub mod entity;
pub mod events;
pub mod geometry;
pub mod spawning;

verus! {

} // verus!
