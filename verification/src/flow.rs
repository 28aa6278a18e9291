//! Overlay, pause and restart control of a running level.

use vstd::prelude::*;

verus! {

/// Modal overlays over the lawn.
#[derive(Clone, Copy, Debug, PartialEq, Eq, Structural)]
pub enum Overlay {
    /// No overlay: the lawn is live.
    Clear,
    Pause,
    SeedChooser,
    Settings,
    Credits,
    Award,
    LevelComplete,
    GameOver,
    NotEnoughSun,
}

/// Pause, overlay and pending restart.
#[derive(Clone, Copy, Debug, PartialEq, Eq, Structural)]
pub struct FlowControl {
    pub paused: bool,
    pub overlay: Overlay,
    pub pending_restart: bool,
}

impl FlowControl {
    /// Running, no overlay, no restart pending.
    pub fn new() -> (f: FlowControl)
        ensures
            !f.paused,
            f.overlay == Overlay::Clear,
            !f.pending_restart,
    {
        FlowControl { paused: false, overlay: Overlay::Clear, pending_restart: false }
    }

    /// The simulation does not step while paused or while an overlay is up.
    pub fn sim_blocked(&self) -> (r: bool)
        ensures
            r == (self.paused || self.overlay != Overlay::Clear),
    {
        self.paused || self.overlay != Overlay::Clear
    }
}

/// Most 100 Hz ticks one frame may run (the rest of a long frame is
/// dropped rather than spiralling).
pub const MAX_TICKS_PER_FRAME: i32 = 10;

/// Ticks a frame runs: none while the simulation is blocked, else the
/// whole ticks elapsed, at most `MAX_TICKS_PER_FRAME`.
pub fn ticks_to_run(whole_ticks: i32, blocked: bool) -> (n: i32)
    ensures
        n == if blocked {
            0
        } else if whole_ticks < MAX_TICKS_PER_FRAME {
            whole_ticks as int
        } else {
            MAX_TICKS_PER_FRAME as int
        },
{
    if blocked {
        0
    } else if whole_ticks < MAX_TICKS_PER_FRAME {
        whole_ticks
    } else {
        MAX_TICKS_PER_FRAME
    }
}

impl Default for FlowControl {
    fn default() -> (f: FlowControl)
        ensures
            !f.paused,
            f.overlay == Overlay::Clear,
            !f.pending_restart,
    {
        FlowControl::new()
    }
}

} // verus!
