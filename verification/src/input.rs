//! Gameplay intents driven by hardware input, and the input context each
//! phase runs in. Binding keys and pads is the input layer's part.

use vstd::prelude::*;

use crate::ui::PilotPhase;

verus! {

/// Gameplay intents driven by hardware input.
#[derive(Clone, Copy, Debug, PartialEq, Eq, Hash, Structural)]
pub enum PilotAction {
    /// Toggle pause while in game (Escape, pad Start).
    PauseToggle,
}

/// Input contexts: gameplay while a level runs, menus everywhere else.
#[derive(Clone, Copy, Debug, PartialEq, Eq, Structural)]
pub enum InputContext {
    Gameplay,
    Menu,
}

/// The input context of a phase.
pub fn context_for(phase: PilotPhase) -> (c: InputContext)
    ensures
        c == (if phase == PilotPhase::InGame {
            InputContext::Gameplay
        } else {
            InputContext::Menu
        }),
{
    if phase == PilotPhase::InGame {
        InputContext::Gameplay
    } else {
        InputContext::Menu
    }
}

} // verus!
