//! Obstacle lifecycle: paired pipes spawned at increasing horizontal
//! offsets while a live-count ceiling admits them, flipped upright
//! sprites for the upper
//! members, and culling of pipes that scrolled out of view.
//!
//! A spawn event draws the lower pipe's height at random, places the upper
//! pipe a fixed distance above it, and counts the pair as one live unit,
//! although two pipe entities are created; the culler decrements the count
//! once per destroyed entity (stopping at zero), so culling both members
//! of a pair lowers the count by two where their spawn raised it by one.

use vstd::prelude::*;
use vstd::seq_lib::*;
use rand::Rng;
use crate::fits_i64;
use crate::timer::RepeatingTimer;
use crate::transform::{Transform, Vec2};

verus! {

/// Uniform scale given to every spawned pipe, in tenths of a unit.
pub const PIPE_SCALE: i64 = 15;
/// Horizontal distance between consecutive spawn x-coordinates.
pub const SPAWN_OFFSET_X: i64 = 200;
/// Ceiling for the live count that the spawn check enforces.
pub const MAX_PIPE_COUNT: u32 = 8;
/// Lowest y-position the lower pipe of a pair may be drawn at.
pub const SPAWN_POS_MIN_Y: i64 = -400;
/// Highest y-position the lower pipe of a pair may be drawn at.
pub const SPAWN_POS_MAX_Y: i64 = -100;
/// Vertical gap between the pipes of a pair, on top of the sprite height.
pub const UPPER_LOWER_PIPE_OFFSET_Y: i64 = 200;
/// Height of the pipe sprite, separating the two members of a pair.
pub const PIPE_SPRITE_HEIGHT: i64 = 400;
/// Extra distance behind the viewport edge before a pipe is culled, so
/// that the removal happens off screen.
pub const PIPE_DESPAWN_OFFSET: i64 = 25;

/// A spawned pipe entity: its transform, the orientation flag telling the
/// upper member of a pair from the lower, and the sprite's vertical-flip
/// display flag.
#[derive(Clone, Copy, PartialEq, Eq, Structural, Debug)]
pub struct Pipe {
    pub transform: Transform,
    pub is_upper: bool,
    pub flip_y: bool,
}

/// The singleton spawner state: the next pair's x-coordinate, which grows
/// by `SPAWN_OFFSET_X` per spawn, and the count of live obstacle units.
#[derive(Clone, Copy, PartialEq, Eq, Structural, Debug)]
pub struct CPipeSpawner {
    pub current_spawn_pos_x: i64,
    pub current_pipe_count: u32,
}

/// Relies on rand::Rng::gen_range over an inclusive integer range, using
/// the thread-local generator: it panics on an empty range and otherwise
/// returns a value within the bounds. Nothing more is assumed of the draw.
#[verifier::external_body]
fn random_in_range_i64(min: i64, max: i64) -> (r: i64)
    requires
        min <= max,
    ensures
        min <= r <= max,
{
    rand::thread_rng().gen_range(min..=max)
}

/// The lower pipe of a pair spawned at `spawn_x` with its centre at
/// `lower_y`: fixed pipe scale, not yet flipped.
pub open spec fn lower_pipe_at(spawn_x: i64, lower_y: i64) -> Pipe {
    Pipe {
        transform: Transform { position: Vec2 { x: spawn_x, y: lower_y }, scale: PIPE_SCALE },
        is_upper: false,
        flip_y: false,
    }
}

/// The upper pipe of a pair spawned at `spawn_x` whose lower pipe sits at
/// `lower_y`: one sprite height plus the pair gap above the lower pipe.
pub open spec fn upper_pipe_at(spawn_x: i64, lower_y: i64) -> Pipe {
    Pipe {
        transform: Transform {
            position: Vec2 {
                x: spawn_x,
                y: (lower_y + PIPE_SPRITE_HEIGHT + UPPER_LOWER_PIPE_OFFSET_Y) as i64,
            },
            scale: PIPE_SCALE,
        },
        is_upper: true,
        flip_y: false,
    }
}

/// `pipes0` extended with one freshly spawned pair at `spawn_x` whose
/// lower y-position is `lower_y`: the lower pipe first, then the upper.
pub open spec fn spawned_pair_pipes(pipes0: Seq<Pipe>, spawn_x: i64, lower_y: i64) -> Seq<Pipe> {
    pipes0.push(lower_pipe_at(spawn_x, lower_y)).push(upper_pipe_at(spawn_x, lower_y))
}

/// `pipes1` extends `pipes0` with one pair at `spawn_x` whose lower
/// y-position was drawn somewhere within the spawn range.
pub open spec fn pair_spawned(pipes0: Seq<Pipe>, pipes1: Seq<Pipe>, spawn_x: i64) -> bool {
    exists|lower_y: i64|
        SPAWN_POS_MIN_Y <= lower_y <= SPAWN_POS_MAX_Y && pipes1 == spawned_pair_pipes(
            pipes0,
            spawn_x,
            lower_y,
        )
}

impl CPipeSpawner {
    /// The spawn check: it admits a spawn while the live count is not
    /// greater than the ceiling. Since a spawn at the ceiling itself is
    /// still admitted, the count can reach one past the ceiling before
    /// spawning stops.
    pub fn can_spawn(&self) -> (r: bool)
        ensures
            r == (self.current_pipe_count <= MAX_PIPE_COUNT),
    {
        !(self.current_pipe_count > MAX_PIPE_COUNT)
    }

    /// Spawn one pair whose lower pipe sits at the given y-position:
    /// push the lower and upper pipes at the current spawn x, then advance
    /// the spawn x by the fixed offset and count the pair as one unit.
    pub fn spawn_pipe_at(&mut self, pipes: &mut Vec<Pipe>, lower_pipe_pos_y: i64)
        requires
            fits_i64(old(self).current_spawn_pos_x + SPAWN_OFFSET_X),
            old(self).current_pipe_count < u32::MAX,
            fits_i64(lower_pipe_pos_y + PIPE_SPRITE_HEIGHT + UPPER_LOWER_PIPE_OFFSET_Y),
        ensures
            final(pipes)@ == spawned_pair_pipes(
                old(pipes)@,
                old(self).current_spawn_pos_x,
                lower_pipe_pos_y,
            ),
            final(self).current_spawn_pos_x
                == old(self).current_spawn_pos_x + SPAWN_OFFSET_X,
            final(self).current_pipe_count == old(self).current_pipe_count + 1,
    {
        let spawn_x = self.current_spawn_pos_x;
        let lower_pipe = Pipe {
            transform: Transform {
                position: Vec2 { x: spawn_x, y: lower_pipe_pos_y },
                scale: PIPE_SCALE,
            },
            is_upper: false,
            flip_y: false,
        };
        pipes.push(lower_pipe);
        let upper_pipe_pos_y = lower_pipe_pos_y + PIPE_SPRITE_HEIGHT + UPPER_LOWER_PIPE_OFFSET_Y;
        let upper_pipe = Pipe {
            transform: Transform {
                position: Vec2 { x: spawn_x, y: upper_pipe_pos_y },
                scale: PIPE_SCALE,
            },
            is_upper: true,
            flip_y: false,
        };
        pipes.push(upper_pipe);
        self.current_spawn_pos_x = self.current_spawn_pos_x + SPAWN_OFFSET_X;
        self.current_pipe_count = self.current_pipe_count + 1;
    }

    /// Spawn one pair, drawing the lower pipe's y-position uniformly from
    /// the spawn range.
    pub fn spawn_pipe(&mut self, pipes: &mut Vec<Pipe>)
        requires
            fits_i64(old(self).current_spawn_pos_x + SPAWN_OFFSET_X),
            old(self).current_pipe_count < u32::MAX,
        ensures
            pair_spawned(old(pipes)@, final(pipes)@, old(self).current_spawn_pos_x),
            final(self).current_spawn_pos_x
                == old(self).current_spawn_pos_x + SPAWN_OFFSET_X,
            final(self).current_pipe_count == old(self).current_pipe_count + 1,
    {
        let lower_pipe_pos_y = random_in_range_i64(SPAWN_POS_MIN_Y, SPAWN_POS_MAX_Y);
        self.spawn_pipe_at(pipes, lower_pipe_pos_y);
    }
}

/// Whether a steady-state spawn happens this tick: the spawn timer
/// completes and the live count admits another pair.
pub open spec fn spawn_fires(
    spawner: CPipeSpawner,
    timer: RepeatingTimer,
    delta_ms: u64,
) -> bool {
    timer.completes(delta_ms) && spawner.current_pipe_count <= MAX_PIPE_COUNT
}

/// One tick of the steady-state spawner: advance the spawn timer; when it
/// completes and the live count admits it, spawn a pair. A completion
/// blocked by the count changes nothing but the timer, which restarts.
pub fn spawn_pipe_system(
    spawner: &mut CPipeSpawner,
    timer: &mut RepeatingTimer,
    pipes: &mut Vec<Pipe>,
    delta_ms: u64,
)
    requires
        old(timer).wf(),
        spawn_fires(*old(spawner), *old(timer), delta_ms)
            ==> fits_i64(old(spawner).current_spawn_pos_x + SPAWN_OFFSET_X),
    ensures
        final(timer).wf(),
        *final(timer) == old(timer).ticked(delta_ms),
        spawn_fires(*old(spawner), *old(timer), delta_ms) ==> {
            &&& pair_spawned(old(pipes)@, final(pipes)@, old(spawner).current_spawn_pos_x)
            &&& final(spawner).current_spawn_pos_x
                == old(spawner).current_spawn_pos_x + SPAWN_OFFSET_X
            &&& final(spawner).current_pipe_count == old(spawner).current_pipe_count + 1
        },
        !spawn_fires(*old(spawner), *old(timer), delta_ms) ==> {
            &&& *final(spawner) == *old(spawner)
            &&& final(pipes)@ == old(pipes)@
        },
{
    let fired = timer.tick(delta_ms);
    if fired && spawner.can_spawn() {
        spawner.spawn_pipe(pipes);
    }
}

/// The live count after one spawn-timer completion with no culling: a
/// pair is spawned while the count still admits one, and nothing
/// changes once the count has passed the ceiling.
pub open spec fn count_after_fire(count: int) -> int {
    if count <= MAX_PIPE_COUNT {
        count + 1
    } else {
        count
    }
}

/// The live count after `k` spawn-timer completions with no culling:
/// `count_after_fire` iterated `k` times.
pub open spec fn count_after_fires(count0: int, k: nat) -> int
    decreases k,
{
    if k == 0 {
        count0
    } else {
        count_after_fire(count_after_fires(count0, (k - 1) as nat))
    }
}

/// Starting from a live count of zero, repeated spawn-timer completions
/// produce one pair each until the count reaches one past the ceiling
/// (a spawn at the ceiling itself is still admitted); every later
/// completion produces nothing and the count stays constant.
pub proof fn lemma_spawner_reaches_ceiling(k: nat)
    ensures
        count_after_fires(0, k) == if k <= MAX_PIPE_COUNT + 1 {
            k as int
        } else {
            MAX_PIPE_COUNT + 1
        },
    decreases k,
{
    if k > 0 {
        lemma_spawner_reaches_ceiling((k - 1) as nat);
    }
}

/// The x-coordinate below which a pipe has scrolled far enough behind the
/// player to be culled invisibly.
pub open spec fn despawn_cutoff(player_pos_x: int, window_half_width: int) -> int {
    player_pos_x - window_half_width - PIPE_DESPAWN_OFFSET
}

/// The pipes that survive a cull with the given cutoff, their order
/// kept: exactly those standing at the cutoff or to the right of it.
pub open spec fn pipes_in_view(pipes: Seq<Pipe>, cutoff: int) -> Seq<Pipe> {
    pipes.filter(|p: Pipe| p.transform.position.x >= cutoff)
}

/// The live count left after `removed` single-pipe decrements from
/// `count`, stopping at zero: a pair is counted once at spawn but culled
/// as two entities, so the count is clamped rather than wrapped.
pub open spec fn count_after_cull(count: int, removed: int) -> int {
    if count >= removed {
        count - removed
    } else {
        0
    }
}

/// One tick of the viewport culler: destroy every pipe whose x-coordinate
/// lies strictly behind the cutoff computed from the player's
/// post-integration x, and decrement the live count once per destroyed
/// pipe (never below zero).
pub fn despawn_pipes_out_of_view(
    pipes: &mut Vec<Pipe>,
    spawner: &mut CPipeSpawner,
    player_pos_x: i64,
    window_half_width: i64,
)
    requires
        window_half_width >= 0,
        fits_i64(despawn_cutoff(player_pos_x as int, window_half_width as int)),
    ensures
        final(pipes)@ == pipes_in_view(
            old(pipes)@,
            despawn_cutoff(player_pos_x as int, window_half_width as int),
        ),
        final(spawner).current_pipe_count == count_after_cull(
            old(spawner).current_pipe_count as int,
            old(pipes)@.len() - final(pipes)@.len(),
        ),
        final(spawner).current_spawn_pos_x == old(spawner).current_spawn_pos_x,
{
    let ghost pipes0 = pipes@;
    let ghost count0 = spawner.current_pipe_count;
    let cutoff = player_pos_x - window_half_width - PIPE_DESPAWN_OFFSET;
    let mut kept: Vec<Pipe> = Vec::new();
    let mut i: usize = 0;
    while i < pipes.len()
        invariant
            pipes@ == pipes0,
            i <= pipes0.len(),
            kept@ == pipes_in_view(pipes0.take(i as int), cutoff as int),
            kept@.len() <= i,
            spawner.current_pipe_count == count_after_cull(count0 as int, i - kept@.len()),
            spawner.current_spawn_pos_x == old(spawner).current_spawn_pos_x,
            cutoff == despawn_cutoff(player_pos_x as int, window_half_width as int),
        decreases pipes0.len() - i,
    {
        let p = pipes[i];
        if p.transform.position.x < cutoff {
            if spawner.current_pipe_count > 0 {
                spawner.current_pipe_count = spawner.current_pipe_count - 1;
            }
        } else {
            kept.push(p);
        }
        proof {
            assert(pipes0.take(i as int + 1) =~= pipes0.take(i as int).push(pipes0[i as int]));
            pipes0.take(i as int).lemma_filter_push(
                pipes0[i as int],
                |q: Pipe| q.transform.position.x >= cutoff as int,
            );
        }
        i = i + 1;
    }
    proof {
        assert(pipes0.take(pipes0.len() as int) =~= pipes0);
    }
    *pipes = kept;
}

/// A pipe with its vertical-flip display flag set when it is an upper
/// pipe, and untouched otherwise.
pub open spec fn flipped_pipe(p: Pipe) -> Pipe {
    Pipe {
        transform: p.transform,
        is_upper: p.is_upper,
        flip_y: if p.is_upper { true } else { p.flip_y },
    }
}

/// Every pipe of the sequence with `flipped_pipe` applied, in order.
pub open spec fn flipped_pipes(pipes: Seq<Pipe>) -> Seq<Pipe> {
    pipes.map_values(|p: Pipe| flipped_pipe(p))
}

/// Set the vertical-flip display flag on every upper pipe, so the upper
/// member of each pair is drawn upside down; lower pipes are untouched.
pub fn flip_upper_pipes_system(pipes: &mut Vec<Pipe>)
    ensures
        final(pipes)@ == flipped_pipes(old(pipes)@),
{
    let ghost pipes0 = pipes@;
    let mut i: usize = 0;
    while i < pipes.len()
        invariant
            pipes@.len() == pipes0.len(),
            i <= pipes0.len(),
            forall|j: int| i <= j < pipes0.len() ==> pipes@[j] == pipes0[j],
            forall|j: int| 0 <= j < i ==> #[trigger] pipes@[j] == flipped_pipe(pipes0[j]),
        decreases pipes0.len() - i,
    {
        if pipes[i].is_upper {
            let mut p = pipes[i];
            p.flip_y = true;
            pipes.set(i, p);
        }
        i = i + 1;
    }
    proof {
        assert(pipes@ =~= flipped_pipes(pipes0));
    }
}

} // verus!
