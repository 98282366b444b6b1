//! Velocity integration for the player: a constant gravity accumulator,
//! the flap impulse, and the per-tick position update.
//!
//! Per tick the three systems run in this order: `gravity_system` first,
//! then `flappy_movement_system` (so a flap fully overrides that tick's
//! gravity contribution), then `velocity_system`, which reads the settled
//! direction and advances the position.

use vstd::prelude::*;
use crate::fits_i64;
use crate::transform::{Transform, Vec2};

verus! {

/// A direction vector (signed per-axis intent) and a scalar speed; the
/// effective displacement per tick, `direction * speed`, is cached in
/// `value` by `velocity_system`.
#[derive(Clone, Copy, PartialEq, Eq, Structural, Debug)]
pub struct CVelocity {
    pub value: Vec2,
    pub direction: Vec2,
    pub speed: i64,
}

impl Default for CVelocity {
    fn default() -> (v: Self)
        ensures
            v.value.x == 0 && v.value.y == 0,
            v.direction.x == 0 && v.direction.y == 0,
            v.speed == 3,
    {
        CVelocity { value: Vec2 { x: 0, y: 0 }, direction: Vec2 { x: 0, y: 0 }, speed: 3 }
    }
}

/// A constant downward acceleration, applied once per tick to the owning
/// entity's `CVelocity::direction.y`; never changes after spawn.
#[derive(Clone, Copy, PartialEq, Eq, Structural, Debug)]
pub struct CGravity {
    pub value: i64,
}

/// The player's movement profile: the vertical direction a flap snaps to,
/// and the constant rightward drift.
#[derive(Clone, Copy, PartialEq, Eq, Structural, Debug)]
pub struct CFlappyMovement {
    pub strength: i64,
    pub rotation_strength: i64,
    pub move_right_speed: i64,
}

/// The vertical direction after one gravity application.
pub open spec fn gravity_step(direction_y: int, gravity: int) -> int {
    direction_y - gravity
}

/// The vertical direction after `k` gravity applications with no flap in
/// between: `gravity_step` iterated `k` times.
pub open spec fn direction_y_after_gravity_ticks(y0: int, gravity: int, k: nat) -> int
    decreases k,
{
    if k == 0 {
        y0
    } else {
        gravity_step(direction_y_after_gravity_ticks(y0, gravity, (k - 1) as nat), gravity)
    }
}

/// With no flap input, `k` consecutive gravity ticks lower the vertical
/// direction by exactly `gravity` each, `k * gravity` in total.
pub proof fn lemma_gravity_accumulates(y0: int, gravity: int, k: nat)
    ensures
        direction_y_after_gravity_ticks(y0, gravity, k) == y0 - k * gravity,
    decreases k,
{
    if k > 0 {
        let km1: nat = (k - 1) as nat;
        lemma_gravity_accumulates(y0, gravity, km1);
        assert(k as int * gravity == km1 as int * gravity + gravity)
            by (nonlinear_arith)
            requires
                km1 == k - 1,
        ;
    } else {
        assert(k * gravity == 0) by (nonlinear_arith)
            requires
                k == 0,
        ;
    }
}

/// With a positive gravity value and no flap input, the vertical direction
/// strictly decreases from tick to tick.
pub proof fn lemma_gravity_monotonic(y0: int, gravity: int, j: nat, k: nat)
    requires
        gravity > 0,
        j < k,
    ensures
        direction_y_after_gravity_ticks(y0, gravity, k)
            < direction_y_after_gravity_ticks(y0, gravity, j),
{
    lemma_gravity_accumulates(y0, gravity, j);
    lemma_gravity_accumulates(y0, gravity, k);
    assert(j as int * gravity < k as int * gravity) by (nonlinear_arith)
        requires
            gravity > 0,
            j < k,
    ;
}

/// Subtract the gravity value from the entity's vertical direction; the
/// sole source of downward acceleration, never reset by anything but a
/// flap impulse.
pub fn gravity_system(gravity: &CGravity, velocity: &mut CVelocity)
    requires
        fits_i64(gravity_step(old(velocity).direction.y as int, gravity.value as int)),
    ensures
        final(velocity).direction.y
            == gravity_step(old(velocity).direction.y as int, gravity.value as int),
        final(velocity).direction.x == old(velocity).direction.x,
        final(velocity).value == old(velocity).value,
        final(velocity).speed == old(velocity).speed,
{
    velocity.direction.y = velocity.direction.y - gravity.value;
}

/// Apply the player's movement profile: a flap edge snaps the vertical
/// direction to exactly `strength`, cancelling any accumulated fall, and
/// the horizontal direction is pinned to `move_right_speed` every tick.
pub fn flappy_movement_system(
    flap_pressed: bool,
    flappy: &CFlappyMovement,
    velocity: &mut CVelocity,
)
    ensures
        final(velocity).direction.y
            == if flap_pressed { flappy.strength } else { old(velocity).direction.y },
        final(velocity).direction.x == flappy.move_right_speed,
        final(velocity).value == old(velocity).value,
        final(velocity).speed == old(velocity).speed,
{
    if flap_pressed {
        velocity.direction.y = flappy.strength;
    }
    velocity.direction.x = flappy.move_right_speed;
}

/// Settle the tick's displacement, `value = direction * speed`, and add it
/// to the entity's position.
pub fn velocity_system(velocity: &mut CVelocity, transform: &mut Transform)
    requires
        fits_i64(old(velocity).direction.x as int * old(velocity).speed as int),
        fits_i64(old(velocity).direction.y as int * old(velocity).speed as int),
        fits_i64(
            old(transform).position.x as int
                + old(velocity).direction.x as int * old(velocity).speed as int,
        ),
        fits_i64(
            old(transform).position.y as int
                + old(velocity).direction.y as int * old(velocity).speed as int,
        ),
    ensures
        final(velocity).value.x == old(velocity).direction.x as int * old(velocity).speed as int,
        final(velocity).value.y == old(velocity).direction.y as int * old(velocity).speed as int,
        final(velocity).direction == old(velocity).direction,
        final(velocity).speed == old(velocity).speed,
        final(transform).position.x == old(transform).position.x + final(velocity).value.x,
        final(transform).position.y == old(transform).position.y + final(velocity).value.y,
        final(transform).scale == old(transform).scale,
{
    velocity.value.x = velocity.direction.x * velocity.speed;
    velocity.value.y = velocity.direction.y * velocity.speed;
    transform.position.x = transform.position.x + velocity.value.x;
    transform.position.y = transform.position.y + velocity.value.y;
}

} // verus!
