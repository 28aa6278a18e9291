//! Zombie sprite animation: which clip plays (walk, eat, fall) and how the
//! frame counter advances through it. The fractional frame clock is the
//! application's; it hands over how many whole frames elapsed.

use vstd::prelude::*;

verus! {

/// First atlas frame of the walk clip.
pub const WALK_START: usize = 0;
/// Frames in the walk clip.
pub const WALK_COUNT: usize = 30;
/// First atlas frame of the eat clip.
pub const EAT_START: usize = 30;
/// Frames in the eat clip.
pub const EAT_COUNT: usize = 15;
/// First atlas frame of the fall clip.
pub const FALL_START: usize = 45;
/// Frames in the fall clip.
pub const FALL_COUNT: usize = 24;

/// The clip a zombie plays.
#[derive(Clone, Copy, Debug, PartialEq, Eq, Structural)]
pub enum AnimState {
    Walk,
    Eat,
    Fall,
}

/// (first atlas frame, frame count) of a clip.
pub open spec fn spec_range(s: AnimState) -> (usize, usize) {
    match s {
        AnimState::Walk => (WALK_START, WALK_COUNT),
        AnimState::Eat => (EAT_START, EAT_COUNT),
        AnimState::Fall => (FALL_START, FALL_COUNT),
    }
}

impl AnimState {
    /// (first atlas frame, frame count) of the clip.
    pub fn range(self) -> (r: (usize, usize))
        ensures
            r == spec_range(self),
    {
        match self {
            AnimState::Walk => (WALK_START, WALK_COUNT),
            AnimState::Eat => (EAT_START, EAT_COUNT),
            AnimState::Fall => (FALL_START, FALL_COUNT),
        }
    }
}

/// A zombie's clip and frame within it.
#[derive(Clone, Copy, Debug, PartialEq, Eq, Structural)]
pub struct ZombieAnim {
    pub state: AnimState,
    pub frame: usize,
}

/// The clip a zombie should play: falling once dying, eating while it
/// eats, walking otherwise.
pub open spec fn target_state(dying: bool, eating: bool) -> AnimState {
    if dying {
        AnimState::Fall
    } else if eating {
        AnimState::Eat
    } else {
        AnimState::Walk
    }
}

/// The frame after `frame`: the fall clip stops on its last frame, the
/// other clips loop.
pub open spec fn next_frame(s: AnimState, frame: nat) -> nat {
    match s {
        AnimState::Fall => if frame + 1 < FALL_COUNT {
            frame + 1
        } else {
            (FALL_COUNT - 1) as nat
        },
        _ => (frame + 1) % (spec_range(s).1 as nat),
    }
}

/// The frame after `n` steps.
pub open spec fn frames_after(s: AnimState, frame: nat, n: nat) -> nat
    decreases n,
{
    if n == 0 {
        frame
    } else {
        next_frame(s, frames_after(s, frame, (n - 1) as nat))
    }
}

impl ZombieAnim {
    /// A fresh walk.
    pub fn new() -> (a: ZombieAnim)
        ensures
            a.state == AnimState::Walk,
            a.frame == 0,
    {
        ZombieAnim { state: AnimState::Walk, frame: 0 }
    }

    /// The frame lies inside the clip.
    pub open spec fn wf(&self) -> bool {
        self.frame < spec_range(self.state).1
    }

    /// Switches to the clip the zombie's situation calls for, restarting it
    /// when it changes.
    pub fn sync(&mut self, dying: bool, eating: bool)
        ensures
            final(self).state == target_state(dying, eating),
            final(self).frame == if old(self).state == target_state(dying, eating) {
                old(self).frame
            } else {
                0
            },
    {
        let target = if dying {
            AnimState::Fall
        } else if eating {
            AnimState::Eat
        } else {
            AnimState::Walk
        };
        if self.state != target {
            self.state = target;
            self.frame = 0;
        }
    }

    /// Advances `frames` whole frames; returns the atlas index to show.
    pub fn step(&mut self, frames: u32) -> (index: usize)
        requires
            old(self).wf(),
        ensures
            final(self).wf(),
            final(self).state == old(self).state,
            final(self).frame == frames_after(old(self).state, old(self).frame as nat, frames as nat),
            index == spec_range(final(self).state).0 + final(self).frame,
    {
        let (start, count) = self.state.range();
        let mut k: u32 = 0;
        while k < frames
            invariant
                k <= frames,
                self.state == old(self).state,
                count == spec_range(self.state).1,
                start == spec_range(self.state).0,
                self.frame < count,
                self.frame == frames_after(old(self).state, old(self).frame as nat, k as nat),
            decreases frames - k,
        {
            self.frame = match self.state {
                AnimState::Fall => if self.frame + 1 < FALL_COUNT {
                    self.frame + 1
                } else {
                    FALL_COUNT - 1
                },
                _ => (self.frame + 1) % count,
            };
            k = k + 1;
        }
        start + self.frame
    }
}

/// Law: once on its last frame, a fall stays there however many frames
/// pass.
pub proof fn lemma_fall_holds_last_frame(n: nat)
    ensures
        frames_after(AnimState::Fall, (FALL_COUNT - 1) as nat, n) == FALL_COUNT - 1,
    decreases n,
{
    if n > 0 {
        lemma_fall_holds_last_frame((n - 1) as nat);
    }
}

/// Law: a walk comes back to the same frame after a whole loop.
pub proof fn lemma_walk_loops(frame: nat)
    requires
        frame < WALK_COUNT,
    ensures
        frames_after(AnimState::Walk, frame, WALK_COUNT as nat) == frame,
{
    assert forall|k: nat| k <= WALK_COUNT implies #[trigger] frames_after(AnimState::Walk, frame, k)
        == (frame + k) % (WALK_COUNT as nat) by {
        lemma_walk_after(frame, k);
    }
}

proof fn lemma_walk_after(frame: nat, k: nat)
    requires
        frame < WALK_COUNT,
    ensures
        frames_after(AnimState::Walk, frame, k) == (frame + k) % (WALK_COUNT as nat),
    decreases k,
{
    if k > 0 {
        lemma_walk_after(frame, (k - 1) as nat);
        let prev = (frame + k - 1) % 30;
        assert((prev + 1) % 30 == (frame + k) % 30) by (nonlinear_arith)
            requires
                prev == (frame + k - 1) % 30,
                k > 0,
        ;
    }
}

} // verus!
