//! Simulation core of a side-scrolling arcade game: a gravity-bound,
//! player-impulsed flyer, a stream of paired obstacles, frame animation,
//! and a camera that tracks the player horizontally.

pub mod animation;
pub mod motion;
pub mod pipe;
pub mod timer;
pub mod transform;
pub mod world;

use vstd::prelude::*;

verus! {

/// Whether a mathematical integer is representable as an `i64`; the
/// arithmetic preconditions of the simulation are stated with it.
pub open spec fn fits_i64(v: int) -> bool {
    i64::MIN <= v <= i64::MAX
}

/// Errors reported by the simulation core.
///
/// Singleton lookups (player, camera, spawner) report `InvariantViolation`
/// instead of crashing; an animation with no frames is rejected at
/// construction with `EmptyAnimationSequence`.
#[derive(Clone, Copy, PartialEq, Eq, Structural, Debug)]
pub enum SimError {
    InvariantViolation,
    EmptyAnimationSequence,
}

} // verus!
