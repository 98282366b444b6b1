//! The game world and its tick driver: a registry of the player bird, the
//! camera, the pipe spawner and the live pipes, plus the fixed-order
//! per-tick schedule.
//!
//! Exactly one bird, one camera and one spawner are expected; a tick on a
//! world that breaks that expectation reports `InvariantViolation` and
//! changes nothing, so the caller decides whether to halt or skip.
//!
//! Per tick, strictly in this order: gravity, flap impulse, position
//! integration, animation, steady-state spawning, sprite flipping,
//! viewport culling against the player's post-integration x, and camera
//! tracking.

use vstd::prelude::*;
use crate::fits_i64;
use crate::SimError;
use crate::animation::{animation_system, next_frame_index, CFrameAnimation};
use crate::motion::{
    flappy_movement_system, gravity_system, velocity_system, CFlappyMovement, CGravity, CVelocity,
};
use crate::pipe::{
    count_after_cull, despawn_cutoff, despawn_pipes_out_of_view, flip_upper_pipes_system,
    flipped_pipes, pair_spawned, pipes_in_view, spawn_fires, spawn_pipe_system,
    spawned_pair_pipes, CPipeSpawner, Pipe, SPAWN_OFFSET_X, SPAWN_POS_MAX_Y, SPAWN_POS_MIN_Y,
};
use crate::timer::RepeatingTimer;
use crate::transform::{Transform, Vec2};

verus! {

/// The bird's sprite handles, one per animation frame, kept in one place.
#[derive(Clone, Copy, PartialEq, Eq, Structural, Debug)]
pub struct RFlappyBirdSprites {
    pub yellow_bird_down_flap: u64,
    pub yellow_bird_mid_flap: u64,
    pub yellow_bird_up_flap: u64,
}

/// The player entity: transform, velocity, gravity, movement profile,
/// animation state with its cycle timer, and the displayed texture.
#[derive(Clone, PartialEq, Eq, Debug)]
pub struct Bird {
    pub transform: Transform,
    pub velocity: CVelocity,
    pub gravity: CGravity,
    pub movement: CFlappyMovement,
    pub animation: CFrameAnimation,
    pub animation_timer: RepeatingTimer,
    pub texture_handle: u64,
}

impl Bird {
    pub open spec fn wf(self) -> bool {
        &&& self.animation.wf()
        &&& self.animation_timer.wf()
    }
}

/// The camera entity: a transform whose x mirrors the player's.
#[derive(Clone, Copy, PartialEq, Eq, Structural, Debug)]
pub struct Camera {
    pub transform: Transform,
}

/// The spawner entity: the singleton spawner state and its spawn timer.
#[derive(Clone, Copy, PartialEq, Eq, Structural, Debug)]
pub struct PipeSpawnerEntity {
    pub spawner: CPipeSpawner,
    pub timer: RepeatingTimer,
}

/// The whole simulated world. The vectors of birds, cameras and spawners
/// exist so that a missing or duplicated singleton is a reportable state,
/// not a crash; `pipes` is the only dynamic entity population.
#[derive(Clone, PartialEq, Eq, Debug)]
pub struct World {
    pub birds: Vec<Bird>,
    pub cameras: Vec<Camera>,
    pub spawners: Vec<PipeSpawnerEntity>,
    pub pipes: Vec<Pipe>,
}

impl World {
    /// Exactly one bird, one camera and one spawner exist.
    pub open spec fn has_singletons(self) -> bool {
        &&& self.birds@.len() == 1
        &&& self.cameras@.len() == 1
        &&& self.spawners@.len() == 1
    }

    pub open spec fn wf(self) -> bool {
        &&& forall|i: int| 0 <= i < self.birds@.len() ==> (#[trigger] self.birds@[i]).wf()
        &&& forall|i: int|
            0 <= i < self.spawners@.len() ==> (#[trigger] self.spawners@[i]).timer.wf()
    }

    /// An empty world, before any setup ran.
    pub fn new() -> (w: World)
        ensures
            w.birds@.len() == 0,
            w.cameras@.len() == 0,
            w.spawners@.len() == 0,
            w.pipes@.len() == 0,
            w.wf(),
    {
        World { birds: Vec::new(), cameras: Vec::new(), spawners: Vec::new(), pipes: Vec::new() }
    }
}

/// Create the camera at the origin and the bird with its movement
/// profile, gravity, starting velocity, three-frame flap animation and
/// cycle timer; the bird starts at the origin showing the mid-flap frame.
pub fn setup_bird(
    world: &mut World,
    bird_sprites: &RFlappyBirdSprites,
    movement: CFlappyMovement,
    gravity: CGravity,
    speed: i64,
    scale: i64,
    animation_interval_ms: u64,
)
    requires
        animation_interval_ms >= 1,
    ensures
        final(world).birds@.len() == old(world).birds@.len() + 1,
        final(world).birds@.subrange(0, old(world).birds@.len() as int) == old(world).birds@,
        final(world).cameras@.len() == old(world).cameras@.len() + 1,
        final(world).cameras@.subrange(0, old(world).cameras@.len() as int)
            == old(world).cameras@,
        final(world).spawners == old(world).spawners,
        final(world).pipes == old(world).pipes,
        ({
            let b = final(world).birds@.last();
            &&& b.wf()
            &&& b.transform.position.x == 0
            &&& b.transform.position.y == 0
            &&& b.transform.scale == scale
            &&& b.velocity.value.x == 0 && b.velocity.value.y == 0
            &&& b.velocity.direction.x == 0 && b.velocity.direction.y == 0
            &&& b.velocity.speed == speed
            &&& b.gravity == gravity
            &&& b.movement == movement
            &&& b.animation.frames() == seq![
                bird_sprites.yellow_bird_up_flap,
                bird_sprites.yellow_bird_mid_flap,
                bird_sprites.yellow_bird_down_flap,
            ]
            &&& b.animation.frame_index() == 0
            &&& b.animation_timer.interval() == animation_interval_ms
            &&& b.animation_timer.elapsed() == 0
            &&& b.texture_handle == bird_sprites.yellow_bird_mid_flap
        }),
        ({
            let c = final(world).cameras@.last();
            &&& c.transform.position.x == 0
            &&& c.transform.position.y == 0
            &&& c.transform.scale == 10
        }),
        old(world).wf() ==> final(world).wf(),
{
    world.cameras.push(
        Camera { transform: Transform { position: Vec2 { x: 0, y: 0 }, scale: 10 } },
    );
    let mut frames: Vec<u64> = Vec::new();
    frames.push(bird_sprites.yellow_bird_up_flap);
    frames.push(bird_sprites.yellow_bird_mid_flap);
    frames.push(bird_sprites.yellow_bird_down_flap);
    proof {
        assert(frames@ =~= seq![
            bird_sprites.yellow_bird_up_flap,
            bird_sprites.yellow_bird_mid_flap,
            bird_sprites.yellow_bird_down_flap,
        ]);
    }
    let animation = CFrameAnimation { anim_vec: frames, current_frame: 0 };
    world.birds.push(
        Bird {
            transform: Transform { position: Vec2 { x: 0, y: 0 }, scale },
            velocity: CVelocity {
                value: Vec2 { x: 0, y: 0 },
                direction: Vec2 { x: 0, y: 0 },
                speed,
            },
            gravity,
            movement,
            animation,
            animation_timer: RepeatingTimer::new(animation_interval_ms),
            texture_handle: bird_sprites.yellow_bird_mid_flap,
        },
    );
    proof {
        assert(world.birds@.subrange(0, old(world).birds@.len() as int) =~= old(world).birds@);
        assert(world.cameras@.subrange(0, old(world).cameras@.len() as int)
            =~= old(world).cameras@);
    }
}

/// Create the spawner entity: spawn x starts at the origin, the live
/// count at zero, and the repeating spawn timer at the given interval.
pub fn setup_pipe_spawner(world: &mut World, spawn_interval_ms: u64)
    requires
        spawn_interval_ms >= 1,
    ensures
        final(world).spawners@.len() == old(world).spawners@.len() + 1,
        final(world).spawners@.subrange(0, old(world).spawners@.len() as int)
            == old(world).spawners@,
        final(world).birds == old(world).birds,
        final(world).cameras == old(world).cameras,
        final(world).pipes == old(world).pipes,
        ({
            let s = final(world).spawners@.last();
            &&& s.spawner.current_spawn_pos_x == 0
            &&& s.spawner.current_pipe_count == 0
            &&& s.timer.interval() == spawn_interval_ms
            &&& s.timer.elapsed() == 0
        }),
        old(world).wf() ==> final(world).wf(),
{
    world.spawners.push(
        PipeSpawnerEntity {
            spawner: CPipeSpawner { current_spawn_pos_x: 0, current_pipe_count: 0 },
            timer: RepeatingTimer::new(spawn_interval_ms),
        },
    );
    proof {
        assert(world.spawners@.subrange(0, old(world).spawners@.len() as int)
            =~= old(world).spawners@);
    }
}

/// Spawn the designated first pair once at startup, outside the
/// timer-driven path and independent of the live-count check. Requires
/// exactly one spawner; otherwise reports `InvariantViolation`.
pub fn spawn_first_pipe(world: &mut World) -> (r: Result<(), SimError>)
    requires
        old(world).spawners@.len() == 1 ==> {
            &&& fits_i64(
                old(world).spawners@[0].spawner.current_spawn_pos_x + SPAWN_OFFSET_X,
            )
            &&& old(world).spawners@[0].spawner.current_pipe_count < u32::MAX
        },
    ensures
        r is Ok <==> old(world).spawners@.len() == 1,
        r matches Err(e) ==> e == SimError::InvariantViolation && *final(world) == *old(world),
        r is Ok ==> {
            &&& pair_spawned(
                old(world).pipes@,
                final(world).pipes@,
                old(world).spawners@[0].spawner.current_spawn_pos_x,
            )
            &&& final(world).spawners@.len() == 1
            &&& final(world).spawners@[0].spawner.current_spawn_pos_x
                == old(world).spawners@[0].spawner.current_spawn_pos_x + SPAWN_OFFSET_X
            &&& final(world).spawners@[0].spawner.current_pipe_count
                == old(world).spawners@[0].spawner.current_pipe_count + 1
            &&& final(world).spawners@[0].timer == old(world).spawners@[0].timer
            &&& final(world).birds == old(world).birds
            &&& final(world).cameras == old(world).cameras
        },
{
    if world.spawners.len() != 1 {
        return Err(SimError::InvariantViolation);
    }
    let mut ent = world.spawners[0];
    ent.spawner.spawn_pipe(&mut world.pipes);
    world.spawners.set(0, ent);
    Ok(())
}

/// Make the camera's horizontal position mirror the player's; the
/// vertical position is never followed. Requires exactly one bird and one
/// camera; otherwise reports `InvariantViolation`.
pub fn camera_follow_bird_system(world: &mut World) -> (r: Result<(), SimError>)
    ensures
        r is Ok <==> old(world).birds@.len() == 1 && old(world).cameras@.len() == 1,
        r matches Err(e) ==> e == SimError::InvariantViolation && *final(world) == *old(world),
        r is Ok ==> {
            &&& final(world).birds == old(world).birds
            &&& final(world).spawners == old(world).spawners
            &&& final(world).pipes == old(world).pipes
            &&& final(world).cameras@.len() == 1
            &&& final(world).cameras@[0].transform.position.x
                == old(world).birds@[0].transform.position.x
            &&& final(world).cameras@[0].transform.position.y
                == old(world).cameras@[0].transform.position.y
            &&& final(world).cameras@[0].transform.scale
                == old(world).cameras@[0].transform.scale
        },
{
    if !(world.birds.len() == 1 && world.cameras.len() == 1) {
        return Err(SimError::InvariantViolation);
    }
    let player_pos_x = world.birds[0].transform.position.x;
    let mut cam = world.cameras[0];
    cam.transform.position.x = player_pos_x;
    world.cameras.set(0, cam);
    Ok(())
}

/// How one tick transforms the bird, given the tick's flap input: gravity
/// lowers the vertical direction, a flap then overrides it with the flap
/// strength, the horizontal direction is pinned to the rightward drift,
/// the settled displacement `direction * speed` moves the position, and
/// the animation advances when its timer completes.
pub open spec fn bird_ticked(b0: Bird, b1: Bird, delta_ms: u64, flap_pressed: bool) -> bool {
    let dir_y = if flap_pressed {
        b0.movement.strength as int
    } else {
        b0.velocity.direction.y - b0.gravity.value
    };
    let dir_x = b0.movement.move_right_speed as int;
    let val_x = dir_x * b0.velocity.speed;
    let val_y = dir_y * b0.velocity.speed;
    let next_idx = next_frame_index(
        b0.animation.frame_index(),
        b0.animation.frames().len() as int,
    );
    &&& b1.velocity.direction.x == dir_x
    &&& b1.velocity.direction.y == dir_y
    &&& b1.velocity.value.x == val_x
    &&& b1.velocity.value.y == val_y
    &&& b1.velocity.speed == b0.velocity.speed
    &&& b1.transform.position.x == b0.transform.position.x + val_x
    &&& b1.transform.position.y == b0.transform.position.y + val_y
    &&& b1.transform.scale == b0.transform.scale
    &&& b1.gravity == b0.gravity
    &&& b1.movement == b0.movement
    &&& b1.animation_timer == b0.animation_timer.ticked(delta_ms)
    &&& b1.animation.frames() == b0.animation.frames()
    &&& if b0.animation_timer.completes(delta_ms) {
        &&& b1.animation.frame_index() == next_idx
        &&& b1.texture_handle == b0.animation.frames()[next_idx]
    } else {
        &&& b1.animation.frame_index() == b0.animation.frame_index()
        &&& b1.texture_handle == b0.texture_handle
    }
}

/// How one tick transforms the whole world, given the tick's inputs and
/// the lower y-position `lower_y` drawn for a pair spawned this tick (the
/// draw is irrelevant on a tick without a spawn): the bird integrates,
/// the spawn timer runs and may add a pair, upper pipes get their flip
/// flag, pipes behind the cutoff from the player's post-integration x are
/// culled with the live count clamped at zero, and the camera mirrors the
/// player's new x.
pub open spec fn world_ticked(
    w0: World,
    w1: World,
    delta_ms: u64,
    flap_pressed: bool,
    window_half_width: int,
    lower_y: i64,
) -> bool {
    let b1 = w1.birds@[0];
    let s0 = w0.spawners@[0];
    let s1 = w1.spawners@[0];
    let fires = spawn_fires(s0.spawner, s0.timer, delta_ms);
    let mid = if fires {
        spawned_pair_pipes(w0.pipes@, s0.spawner.current_spawn_pos_x, lower_y)
    } else {
        w0.pipes@
    };
    let cutoff = despawn_cutoff(b1.transform.position.x as int, window_half_width);
    let count_mid = if fires {
        s0.spawner.current_pipe_count + 1
    } else {
        s0.spawner.current_pipe_count as int
    };
    &&& w1.birds@.len() == 1
    &&& w1.cameras@.len() == 1
    &&& w1.spawners@.len() == 1
    &&& bird_ticked(w0.birds@[0], b1, delta_ms, flap_pressed)
    &&& s1.timer == s0.timer.ticked(delta_ms)
    &&& s1.spawner.current_spawn_pos_x == if fires {
        s0.spawner.current_spawn_pos_x + SPAWN_OFFSET_X
    } else {
        s0.spawner.current_spawn_pos_x as int
    }
    &&& w1.pipes@ == pipes_in_view(flipped_pipes(mid), cutoff)
    &&& s1.spawner.current_pipe_count == count_after_cull(
        count_mid,
        mid.len() - w1.pipes@.len(),
    )
    &&& w1.cameras@[0].transform.position.x == b1.transform.position.x
    &&& w1.cameras@[0].transform.position.y == w0.cameras@[0].transform.position.y
    &&& w1.cameras@[0].transform.scale == w0.cameras@[0].transform.scale
}

/// The arithmetic of one tick stays within machine bounds; demanded of
/// callers only when the world has its singletons, since the tick
/// otherwise reports an error untouched.
pub open spec fn tick_fits(
    w: World,
    delta_ms: u64,
    flap_pressed: bool,
    window_half_width: int,
) -> bool {
    w.has_singletons() ==> {
        let b = w.birds@[0];
        let s = w.spawners@[0];
        let dir_y_grav = b.velocity.direction.y - b.gravity.value;
        let dir_y = if flap_pressed {
            b.movement.strength as int
        } else {
            dir_y_grav
        };
        let dir_x = b.movement.move_right_speed as int;
        let val_x = dir_x * b.velocity.speed;
        let val_y = dir_y * b.velocity.speed;
        &&& fits_i64(dir_y_grav)
        &&& fits_i64(val_x)
        &&& fits_i64(val_y)
        &&& fits_i64(b.transform.position.x + val_x)
        &&& fits_i64(b.transform.position.y + val_y)
        &&& (spawn_fires(s.spawner, s.timer, delta_ms) ==> fits_i64(
            s.spawner.current_spawn_pos_x + SPAWN_OFFSET_X,
        ))
        &&& fits_i64(despawn_cutoff(b.transform.position.x + val_x, window_half_width))
    }
}

/// Mutable access to the first bird of the registry.
fn bird_mut(birds: &mut Vec<Bird>) -> (b: &mut Bird)
    requires
        old(birds)@.len() >= 1,
    ensures
        *b == old(birds)@[0],
        final(birds)@ == old(birds)@.update(0, *final(b)),
{
    &mut birds[0]
}

/// One simulation tick, the fixed-order schedule over the whole world:
/// read input (the flap edge and the viewport half-width are handed in),
/// integrate the bird's velocity, cycle the animation, run the spawner,
/// flip upper pipes, cull pipes behind the player, and track the camera.
///
/// On a world without exactly one bird, one camera and one spawner the
/// tick reports `InvariantViolation` and changes nothing. Otherwise the
/// new world is `world_ticked` of the old one, for some lower pipe
/// y-position drawn within the spawn range.
pub fn tick(
    world: &mut World,
    delta_ms: u64,
    flap_pressed: bool,
    window_half_width: i64,
) -> (r: Result<(), SimError>)
    requires
        old(world).wf(),
        window_half_width >= 0,
        tick_fits(*old(world), delta_ms, flap_pressed, window_half_width as int),
    ensures
        r is Ok <==> old(world).has_singletons(),
        r matches Err(e) ==> e == SimError::InvariantViolation && *final(world) == *old(world),
        r is Ok ==> exists|lower_y: i64|
            SPAWN_POS_MIN_Y <= lower_y <= SPAWN_POS_MAX_Y && world_ticked(
                *old(world),
                *final(world),
                delta_ms,
                flap_pressed,
                window_half_width as int,
                lower_y,
            ),
        r is Ok ==> final(world).wf() && final(world).has_singletons(),
        r is Ok ==> final(world).cameras@[0].transform.position.x
            == final(world).birds@[0].transform.position.x,
{
    if !(world.birds.len() == 1 && world.cameras.len() == 1 && world.spawners.len() == 1) {
        return Err(SimError::InvariantViolation);
    }

    let bird = bird_mut(&mut world.birds);
    gravity_system(&bird.gravity, &mut bird.velocity);
    flappy_movement_system(flap_pressed, &bird.movement, &mut bird.velocity);
    velocity_system(&mut bird.velocity, &mut bird.transform);
    animation_system(
        &mut bird.animation_timer,
        &mut bird.animation,
        &mut bird.texture_handle,
        delta_ms,
    );

    let player_pos_x = world.birds[0].transform.position.x;

    let mut ent = world.spawners[0];
    spawn_pipe_system(&mut ent.spawner, &mut ent.timer, &mut world.pipes, delta_ms);
    let ghost pipes_after_spawn = world.pipes@;
    flip_upper_pipes_system(&mut world.pipes);
    despawn_pipes_out_of_view(&mut world.pipes, &mut ent.spawner, player_pos_x, window_half_width);
    world.spawners.set(0, ent);

    let mut cam = world.cameras[0];
    cam.transform.position.x = player_pos_x;
    world.cameras.set(0, cam);

    proof {
        let w0 = *old(world);
        let s0 = w0.spawners@[0];
        if spawn_fires(s0.spawner, s0.timer, delta_ms) {
            let y = choose|y: i64|
                SPAWN_POS_MIN_Y <= y <= SPAWN_POS_MAX_Y && pipes_after_spawn
                    == spawned_pair_pipes(w0.pipes@, s0.spawner.current_spawn_pos_x, y);
            assert(world_ticked(
                w0,
                *world,
                delta_ms,
                flap_pressed,
                window_half_width as int,
                y,
            ));
        } else {
            assert(world_ticked(
                w0,
                *world,
                delta_ms,
                flap_pressed,
                window_half_width as int,
                SPAWN_POS_MIN_Y,
            ));
        }
    }
    Ok(())
}

} // verus!
