//! Frame-based sprite animation: an ordered, non-empty sequence of opaque
//! texture handles cycled on a repeating timer.
//!
//! Texture handles are plain opaque identifiers; the core never decodes or
//! renders image data, it only stores and swaps handles.

use vstd::prelude::*;
use vstd::arithmetic::div_mod::{lemma_add_mod_noop_right, lemma_mod_self_0, lemma_small_mod};
use crate::SimError;
use crate::timer::RepeatingTimer;

verus! {

/// The frame index that follows `i` in a cycle of `len` frames: advance by
/// one, wrapping to 0 past the last frame.
pub open spec fn next_frame_index(i: int, len: int) -> int {
    (i + 1) % len
}

/// The frame index reached from `i` after `k` timer completions:
/// `next_frame_index` iterated `k` times.
pub open spec fn frame_index_after_completions(i: int, len: int, k: nat) -> int
    decreases k,
{
    if k == 0 {
        i
    } else {
        next_frame_index(frame_index_after_completions(i, len, (k - 1) as nat), len)
    }
}

/// Cycling offsets the frame index by the number of completions, modulo
/// the sequence length.
pub proof fn lemma_frame_index_offset(i: int, len: int, k: nat)
    requires
        0 <= i < len,
    ensures
        frame_index_after_completions(i, len, k) == (i + k) % len,
    decreases k,
{
    if k == 0 {
        lemma_small_mod(i as nat, len as nat);
    } else {
        let km1: nat = (k - 1) as nat;
        lemma_frame_index_offset(i, len, km1);
        lemma_add_mod_noop_right(1, i + km1, len);
    }
}

/// For any non-empty sequence of `len` frames, after exactly `len` timer
/// completions the frame index returns to its starting value: the cycle is
/// closed and never reversed or reshuffled.
pub proof fn lemma_animation_cycles(i: int, len: int)
    requires
        0 <= i < len,
    ensures
        frame_index_after_completions(i, len, len as nat) == i,
{
    lemma_frame_index_offset(i, len, len as nat);
    lemma_add_mod_noop_right(i, len, len);
    lemma_mod_self_0(len);
    lemma_small_mod(i as nat, len as nat);
}

/// An animation: a non-empty, fixed, cyclic sequence of texture handles
/// and the index of the frame currently shown.
#[derive(Clone, PartialEq, Eq, Debug)]
pub struct CFrameAnimation {
    /// The frames, in display order. Never empty.
    pub anim_vec: Vec<u64>,
    /// Index of the active frame; always below `anim_vec.len()`.
    pub current_frame: usize,
}

impl CFrameAnimation {
    pub open spec fn frames(self) -> Seq<u64> {
        self.anim_vec@
    }

    pub open spec fn frame_index(self) -> int {
        self.current_frame as int
    }

    pub open spec fn wf(self) -> bool {
        &&& self.frames().len() > 0
        &&& 0 <= self.frame_index() < self.frames().len()
    }

    /// Build an animation starting at its first frame. A sequence with no
    /// frames is rejected here, at construction time, never later.
    pub fn new(anim_vec: Vec<u64>) -> (r: Result<Self, SimError>)
        ensures
            r is Ok <==> anim_vec@.len() > 0,
            r matches Ok(a) ==> a.wf() && a.frames() == anim_vec@ && a.frame_index() == 0,
            r matches Err(e) ==> e == SimError::EmptyAnimationSequence,
    {
        if anim_vec.len() == 0 {
            Err(SimError::EmptyAnimationSequence)
        } else {
            Ok(CFrameAnimation { anim_vec, current_frame: 0 })
        }
    }

    /// Write the active frame's handle into the entity's displayed-texture
    /// reference.
    pub fn set_texture_handle_to_current_frame(&self, texture_handle: &mut u64)
        requires
            self.wf(),
        ensures
            *final(texture_handle) == self.frames()[self.frame_index()],
    {
        *texture_handle = self.anim_vec[self.current_frame];
    }

    /// Advance to the next frame, wrapping to the first past the last.
    pub fn go_next_frame(&mut self)
        requires
            old(self).wf(),
        ensures
            final(self).wf(),
            final(self).frames() == old(self).frames(),
            final(self).frame_index()
                == next_frame_index(old(self).frame_index(), old(self).frames().len() as int),
    {
        let len: usize = self.anim_vec.len();
        if !(self.current_frame + 1 >= len) {
            self.current_frame = self.current_frame + 1;
            proof {
                lemma_small_mod(self.current_frame as nat, len as nat);
            }
        } else {
            self.current_frame = 0;
            proof {
                lemma_mod_self_0(len as int);
            }
        }
    }
}

/// One tick of the animation cycler: advance the timer by the elapsed
/// time; on completion advance the frame index by one (wrapping) and write
/// the new active frame into the displayed-texture reference. At most one
/// completion is handled per tick.
pub fn animation_system(
    timer: &mut RepeatingTimer,
    canim: &mut CFrameAnimation,
    texture_handle: &mut u64,
    delta_ms: u64,
)
    requires
        old(timer).wf(),
        old(canim).wf(),
    ensures
        final(timer).wf(),
        final(canim).wf(),
        *final(timer) == old(timer).ticked(delta_ms),
        old(timer).completes(delta_ms) ==> {
            &&& final(canim).frames() == old(canim).frames()
            &&& final(canim).frame_index()
                == next_frame_index(old(canim).frame_index(), old(canim).frames().len() as int)
            &&& *final(texture_handle) == final(canim).frames()[final(canim).frame_index()]
        },
        !old(timer).completes(delta_ms) ==> {
            &&& *final(canim) == *old(canim)
            &&& *final(texture_handle) == *old(texture_handle)
        },
{
    let fired = timer.tick(delta_ms);
    if fired {
        canim.go_next_frame();
        canim.set_texture_handle_to_current_frame(texture_handle);
    }
}

} // verus!
