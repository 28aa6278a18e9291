//! Button presses of the lightweight build's views, the pause key, the
//! boot phases and the overlay stingers. Each press updates the UI, the
//! flow control and the language, and lists the outside work the
//! application performs afterwards (save, start a level, fade, quit, cue).
//! Every press also plays the click cue, and the volume buttons carry
//! floating-point values: both are the application's part.

use vstd::prelude::*;

use crate::audio::Cue;
use crate::chooser::{
    add_pick, bank_for, bank_name_list, fresh_bank, pick_added, pick_removed, remove_pick,
    retain_unlocked,
};
use crate::constants::STARTING_SUN;
use crate::flow::{FlowControl, Overlay};
use crate::i18n::{catalog_for, Localizer, LocalizerView};
use crate::level_flow::{award_for_completed_level, name_unlocked};
use crate::menu::award_name;
use crate::ui::{bank_names, clone_names, contains_name, names, PilotPhase, PilotUi, UiView};

verus! {

/// Presses of the lightweight build's buttons.
#[derive(Clone, Debug)]
pub enum UiAct {
    Resume,
    Restart,
    QuitToTitle,
    LevelOk,
    AwardOk,
    CloseOverlay,
    OpenAdventure,
    OpenSettings,
    OpenCredits,
    QuitApp,
    SetLanguage(String),
    SaveSettings,
    ChooserPick(String),
    ChooserRemove(usize),
    ConfirmSeedChooser,
}

/// Outside work a press asks for, done in this order after the state
/// update: write the save from the UI, start the level, start the fade,
/// play the win stinger, quit.
#[derive(Clone, Copy, Debug, PartialEq, Eq, Structural)]
pub struct ActEffects {
    pub persist: bool,
    pub enter_level: Option<u32>,
    pub transition: bool,
    pub win_cue: bool,
    pub exit: bool,
}

/// No outside work.
pub open spec fn quiet() -> ActEffects {
    ActEffects { persist: false, enter_level: None, transition: false, win_cue: false, exit: false }
}

/// Running, with no overlay.
pub open spec fn live(f: FlowControl) -> FlowControl {
    FlowControl { overlay: Overlay::Clear, paused: false, ..f }
}

/// Back to the pause menu of a paused game, or to the live lawn.
pub open spec fn back_overlay(f: FlowControl) -> FlowControl {
    FlowControl {
        overlay: if f.paused {
            Overlay::Pause
        } else {
            Overlay::Clear
        },
        ..f
    }
}

/// OK on the level-complete note: the level's award is offered, or, past
/// the last award, play moves on to the next level at the title. The win
/// stinger plays either way.
pub open spec fn level_ok_step(u0: UiView, f0: FlowControl, u1: UiView, f1: FlowControl, e: ActEffects) -> bool {
    match award_name(u0.adventure_level as nat) {
        Some(n) => {
            &&& u1 == UiView { pending_award: Some(n), ..u0 }
            &&& f1 == FlowControl { overlay: Overlay::Award, ..f0 }
            &&& e == ActEffects { win_cue: true, ..quiet() }
        },
        None => {
            &&& u1 == UiView {
                adventure_level: (u0.adventure_level + 1) as u32,
                phase: PilotPhase::Title,
                ..u0
            }
            &&& f1 == live(f0)
            &&& e == ActEffects { persist: true, transition: true, win_cue: true, ..quiet() }
        },
    }
}

/// OK on the award: the awarded seed is unlocked (once), play moves on to
/// the next level at the title.
pub open spec fn award_ok_step(u0: UiView, f0: FlowControl, u1: UiView, f1: FlowControl, e: ActEffects) -> bool {
    &&& u1 == UiView {
        pending_award: None,
        unlocked: match u0.pending_award {
            Some(n) => if u0.unlocked.contains(n) {
                u0.unlocked
            } else {
                u0.unlocked.push(n)
            },
            None => u0.unlocked,
        },
        adventure_level: (u0.adventure_level + 1) as u32,
        phase: PilotPhase::Title,
        ..u0
    }
    &&& f1 == live(f0)
    &&& e == ActEffects { persist: true, transition: true, ..quiet() }
}

/// What one press does (the contract of `apply_act`).
pub open spec fn act_step(
    a: UiAct,
    u0: UiView,
    f0: FlowControl,
    l0: LocalizerView,
    u1: UiView,
    f1: FlowControl,
    l1: LocalizerView,
    e: ActEffects,
) -> bool {
    match a {
        UiAct::Resume => u1 == u0 && f1 == live(f0) && l1 == l0 && e == quiet(),
        UiAct::Restart => {
            &&& u1 == u0 && f1 == f0 && l1 == l0
            &&& e == ActEffects { enter_level: Some(u0.adventure_level), ..quiet() }
        },
        UiAct::QuitToTitle => {
            &&& u1 == UiView { phase: PilotPhase::Title, ..u0 }
            &&& f1 == live(f0) && l1 == l0
            &&& e == ActEffects { transition: true, ..quiet() }
        },
        UiAct::LevelOk => level_ok_step(u0, f0, u1, f1, e) && l1 == l0,
        UiAct::AwardOk => award_ok_step(u0, f0, u1, f1, e) && l1 == l0,
        UiAct::CloseOverlay => u1 == u0 && f1 == back_overlay(f0) && l1 == l0 && e == quiet(),
        UiAct::OpenAdventure => {
            &&& u1 == UiView { picks: bank_names(u0.seed_bank), ..u0 }
            &&& f1 == FlowControl { overlay: Overlay::SeedChooser, ..f0 }
            &&& l1 == l0 && e == quiet()
        },
        UiAct::OpenSettings => {
            u1 == u0 && f1 == FlowControl { overlay: Overlay::Settings, ..f0 } && l1 == l0 && e
                == quiet()
        },
        UiAct::OpenCredits => {
            u1 == u0 && f1 == FlowControl { overlay: Overlay::Credits, ..f0 } && l1 == l0 && e
                == quiet()
        },
        UiAct::QuitApp => u1 == u0 && f1 == f0 && l1 == l0 && e == ActEffects { exit: true, ..quiet() },
        UiAct::SetLanguage(code) => {
            &&& f1 == f0 && e == quiet()
            &&& if catalog_for(l0.catalogs, code@) is Some {
                &&& l1 == LocalizerView { current: code@, ..l0 }
                &&& u1 == UiView { language: code@, ..u0 }
            } else {
                l1 == l0 && u1 == u0
            }
        },
        UiAct::SaveSettings => {
            u1 == u0 && f1 == back_overlay(f0) && l1 == l0 && e == ActEffects {
                persist: true,
                ..quiet()
            }
        },
        UiAct::ChooserPick(n) => {
            u1 == UiView { picks: pick_added(u0.picks, n@), ..u0 } && f1 == f0 && l1 == l0 && e
                == quiet()
        },
        UiAct::ChooserRemove(i) => {
            u1 == UiView { picks: pick_removed(u0.picks, i as int), ..u0 } && f1 == f0 && l1
                == l0 && e == quiet()
        },
        UiAct::ConfirmSeedChooser => {
            &&& bank_for(u0.picks.filter(name_unlocked(u0.unlocked)), u1.seed_bank)
            &&& u1 == UiView {
                seed_bank: u1.seed_bank,
                sun: STARTING_SUN,
                flags_done: 0,
                shovel_selected: false,
                phase: PilotPhase::InGame,
                ..u0
            }
            &&& f1 == live(f0) && l1 == l0
            &&& e == ActEffects {
                persist: true,
                enter_level: Some(u0.adventure_level),
                transition: true,
                ..quiet()
            }
        },
    }
}

/// What a press may demand: moving past the last level must fit `u32`.
pub open spec fn act_ok(a: UiAct, u: UiView) -> bool {
    (a is LevelOk || a is AwardOk) ==> u.adventure_level < u32::MAX
}

fn quiet_effects() -> (e: ActEffects)
    ensures
        e == quiet(),
{
    ActEffects { persist: false, enter_level: None, transition: false, win_cue: false, exit: false }
}

fn go_live(flow: &mut FlowControl)
    ensures
        *final(flow) == live(*old(flow)),
{
    flow.overlay = Overlay::Clear;
    flow.paused = false;
}

fn go_back(flow: &mut FlowControl)
    ensures
        *final(flow) == back_overlay(*old(flow)),
{
    flow.overlay = if flow.paused {
        Overlay::Pause
    } else {
        Overlay::Clear
    };
}

/// Opening the seed chooser from the title: it starts from the current
/// bank's seeds.
pub fn open_chooser(ui: &mut PilotUi, flow: &mut FlowControl)
    ensures
        final(ui)@ == (UiView { picks: bank_names(old(ui)@.seed_bank), ..old(ui)@ }),
        *final(flow) == (FlowControl { overlay: Overlay::SeedChooser, ..*old(flow) }),
{
    ui.chooser_picks = bank_name_list(&ui.seed_bank);
    flow.overlay = Overlay::SeedChooser;
}

/// Confirming the chooser: the bank becomes fresh packets of the unlocked
/// picks, in order; the sun, flags and shovel reset; the game runs and
/// enters play (the application saves, starts the level and fades).
pub fn confirm_chooser(ui: &mut PilotUi, flow: &mut FlowControl) -> (e: ActEffects)
    ensures
        bank_for(old(ui)@.picks.filter(name_unlocked(old(ui)@.unlocked)), final(ui).seed_bank@),
        final(ui)@ == (UiView {
            seed_bank: final(ui).seed_bank@,
            sun: STARTING_SUN,
            flags_done: 0,
            shovel_selected: false,
            phase: PilotPhase::InGame,
            ..old(ui)@
        }),
        *final(flow) == live(*old(flow)),
        e == (ActEffects {
            persist: true,
            enter_level: Some(old(ui).adventure_level),
            transition: true,
            ..quiet()
        }),
{
    let mut picks = clone_names(&ui.chooser_picks);
    retain_unlocked(&mut picks, &ui.unlocked_seed_names);
    ui.seed_bank = fresh_bank(&picks);
    ui.sun = STARTING_SUN;
    ui.flags_done = 0;
    ui.shovel_selected = false;
    go_live(flow);
    ui.phase = PilotPhase::InGame;
    ActEffects {
        persist: true,
        enter_level: Some(ui.adventure_level),
        transition: true,
        win_cue: false,
        exit: false,
    }
}

/// Pausing from the HUD: paused, with the pause menu up.
pub fn pause_game(flow: &mut FlowControl)
    ensures
        *final(flow) == (FlowControl { paused: true, overlay: Overlay::Pause, ..*old(flow) }),
{
    flow.paused = true;
    flow.overlay = Overlay::Pause;
}

fn level_ok(ui: &mut PilotUi, flow: &mut FlowControl) -> (e: ActEffects)
    requires
        old(ui).adventure_level < u32::MAX,
    ensures
        level_ok_step(old(ui)@, *old(flow), final(ui)@, *final(flow), e),
{
    match award_for_completed_level(ui.adventure_level) {
        Some(seed) => {
            ui.pending_award_seed = Some(seed.to_owned());
            flow.overlay = Overlay::Award;
            ActEffects { win_cue: true, ..quiet_effects() }
        },
        None => {
            ui.adventure_level = ui.adventure_level + 1;
            ui.phase = PilotPhase::Title;
            go_live(flow);
            ActEffects { persist: true, transition: true, win_cue: true, ..quiet_effects() }
        },
    }
}

fn award_ok(ui: &mut PilotUi, flow: &mut FlowControl) -> (e: ActEffects)
    requires
        old(ui).adventure_level < u32::MAX,
    ensures
        award_ok_step(old(ui)@, *old(flow), final(ui)@, *final(flow), e),
{
    let mut pending: Option<String> = None;
    std::mem::swap(&mut pending, &mut ui.pending_award_seed);
    match pending {
        Some(seed) => {
            if !contains_name(&ui.unlocked_seed_names, seed.as_str()) {
                let ghost before = ui.unlocked_seed_names@;
                ui.unlocked_seed_names.push(seed);
                assert(names(ui.unlocked_seed_names@) == names(before).push(
                    old(ui)@.pending_award->0,
                ));
            }
        },
        None => {},
    }
    ui.adventure_level = ui.adventure_level + 1;
    ui.phase = PilotPhase::Title;
    go_live(flow);
    ActEffects { persist: true, transition: true, ..quiet_effects() }
}

/// Applies one press (see `act_step`).
pub fn apply_act(act: UiAct, ui: &mut PilotUi, flow: &mut FlowControl, i18n: &mut Localizer) -> (e:
    ActEffects)
    requires
        act_ok(act, old(ui)@),
    ensures
        act_step(act, old(ui)@, *old(flow), old(i18n)@, final(ui)@, *final(flow), final(i18n)@, e),
{
    match act {
        UiAct::Resume => {
            go_live(flow);
            quiet_effects()
        },
        UiAct::Restart => ActEffects { enter_level: Some(ui.adventure_level), ..quiet_effects() },
        UiAct::QuitToTitle => {
            ui.phase = PilotPhase::Title;
            go_live(flow);
            ActEffects { transition: true, ..quiet_effects() }
        },
        UiAct::LevelOk => level_ok(ui, flow),
        UiAct::AwardOk => award_ok(ui, flow),
        UiAct::CloseOverlay => {
            go_back(flow);
            quiet_effects()
        },
        UiAct::OpenAdventure => {
            open_chooser(ui, flow);
            quiet_effects()
        },
        UiAct::OpenSettings => {
            flow.overlay = Overlay::Settings;
            quiet_effects()
        },
        UiAct::OpenCredits => {
            flow.overlay = Overlay::Credits;
            quiet_effects()
        },
        UiAct::QuitApp => ActEffects { exit: true, ..quiet_effects() },
        UiAct::SetLanguage(code) => {
            if i18n.set_language(code.as_str()) {
                ui.language = code;
            }
            quiet_effects()
        },
        UiAct::SaveSettings => {
            go_back(flow);
            ActEffects { persist: true, ..quiet_effects() }
        },
        UiAct::ChooserPick(name) => {
            add_pick(ui, name);
            quiet_effects()
        },
        UiAct::ChooserRemove(i) => {
            remove_pick(ui, i);
            quiet_effects()
        },
        UiAct::ConfirmSeedChooser => confirm_chooser(ui, flow),
    }
}

/// Seconds the splash shows, in milliseconds.
pub const SPLASH_MS: u64 = 1500;

/// Milliseconds the loading screen shows after the splash.
pub const LOADING_MS: u64 = 500;

/// Boot phase after `elapsed_ms` since boot: Splash, then Loading, then
/// Title, on wall-clock timers; only moves forward, and never touches a
/// title screen or a game in progress.
pub open spec fn spec_boot_phase(phase: PilotPhase, elapsed_ms: nat) -> PilotPhase {
    match phase {
        PilotPhase::Splash => if elapsed_ms >= SPLASH_MS + LOADING_MS {
            PilotPhase::Title
        } else if elapsed_ms >= SPLASH_MS {
            PilotPhase::Loading
        } else {
            PilotPhase::Splash
        },
        PilotPhase::Loading => if elapsed_ms >= SPLASH_MS + LOADING_MS {
            PilotPhase::Title
        } else {
            PilotPhase::Loading
        },
        p => p,
    }
}

/// The boot phase after `elapsed_ms` (see `spec_boot_phase`).
pub fn advance_boot_phase(phase: PilotPhase, elapsed_ms: u64) -> (r: PilotPhase)
    ensures
        r == spec_boot_phase(phase, elapsed_ms as nat),
{
    match phase {
        PilotPhase::Splash => if elapsed_ms >= SPLASH_MS + LOADING_MS {
            PilotPhase::Title
        } else if elapsed_ms >= SPLASH_MS {
            PilotPhase::Loading
        } else {
            PilotPhase::Splash
        },
        PilotPhase::Loading => if elapsed_ms >= SPLASH_MS + LOADING_MS {
            PilotPhase::Title
        } else {
            PilotPhase::Loading
        },
        p => p,
    }
}

/// Order of the boot phases (a game in progress is last).
pub open spec fn phase_rank(p: PilotPhase) -> int {
    match p {
        PilotPhase::Splash => 0,
        PilotPhase::Loading => 1,
        PilotPhase::Title => 2,
        PilotPhase::InGame => 3,
    }
}

/// Law: the boot phases never go back, whatever the clock says, and a
/// title screen or a game in progress is never touched.
pub proof fn lemma_boot_never_regresses(phase: PilotPhase, elapsed_ms: nat)
    ensures
        phase_rank(spec_boot_phase(phase, elapsed_ms)) >= phase_rank(phase),
        phase == PilotPhase::Title || phase == PilotPhase::InGame ==> spec_boot_phase(
            phase,
            elapsed_ms,
        ) == phase,
{
}

/// Law: a later look at the clock never gives an earlier boot phase.
pub proof fn lemma_boot_monotone(phase: PilotPhase, t1: nat, t2: nat)
    requires
        t1 <= t2,
    ensures
        phase_rank(spec_boot_phase(phase, t1)) <= phase_rank(spec_boot_phase(phase, t2)),
{
}

/// The pause key: in game it toggles the pause menu (the overlay only;
/// other overlays stay up); outside the game it does nothing.
pub fn pause_toggle(flow: &mut FlowControl, phase: PilotPhase, pressed: bool)
    ensures
        pressed && phase == PilotPhase::InGame && old(flow).overlay == Overlay::Clear
            ==> *final(flow) == (FlowControl { overlay: Overlay::Pause, ..*old(flow) }),
        pressed && phase == PilotPhase::InGame && old(flow).overlay == Overlay::Pause
            ==> *final(flow) == (FlowControl { overlay: Overlay::Clear, ..*old(flow) }),
        !(pressed && phase == PilotPhase::InGame && (old(flow).overlay == Overlay::Clear || old(
            flow,
        ).overlay == Overlay::Pause)) ==> *final(flow) == *old(flow),
{
    if !pressed || phase != PilotPhase::InGame {
        return;
    }
    flow.overlay = match flow.overlay {
        Overlay::Clear => Overlay::Pause,
        Overlay::Pause => Overlay::Clear,
        other => other,
    };
}

/// Law: pressing the pause key twice in game comes back to where it was.
pub proof fn lemma_pause_toggle_twice(f: FlowControl)
    requires
        f.overlay == Overlay::Clear || f.overlay == Overlay::Pause,
    ensures
        ({
            let flip = |o: Overlay|
                if o == Overlay::Clear {
                    Overlay::Pause
                } else {
                    Overlay::Clear
                };
            FlowControl { overlay: flip(FlowControl { overlay: flip(f.overlay), ..f }.overlay), ..f } == f
        }),
{
}

/// One-shot stinger when the overlay changes: the win sting on a completed
/// level or an award, the lose sting on a lost game. Remembers the overlay.
pub fn overlay_stinger(last: &mut Overlay, now: Overlay) -> (cue: Option<Cue>)
    ensures
        *final(last) == now,
        cue == if now == *old(last) {
            None
        } else if now == Overlay::LevelComplete || now == Overlay::Award {
            Some(Cue::Win)
        } else if now == Overlay::GameOver {
            Some(Cue::Lose)
        } else {
            None
        },
{
    if now == *last {
        return None;
    }
    *last = now;
    match now {
        Overlay::LevelComplete | Overlay::Award => Some(Cue::Win),
        Overlay::GameOver => Some(Cue::Lose),
        _ => None,
    }
}


/// Law: OK on the level-complete note (offering an award) and then OK on
/// the award unlocks the awarded seed, advances the level by one, returns
/// to the title with the game running and asks for the save.
pub proof fn lemma_act_award_chain(
    u0: UiView,
    f0: FlowControl,
    u1: UiView,
    f1: FlowControl,
    e1: ActEffects,
    u2: UiView,
    f2: FlowControl,
    e2: ActEffects,
)
    requires
        award_name(u0.adventure_level as nat) is Some,
        level_ok_step(u0, f0, u1, f1, e1),
        award_ok_step(u1, f1, u2, f2, e2),
    ensures
        f1.overlay == Overlay::Award,
        u1.pending_award == award_name(u0.adventure_level as nat),
        u2.unlocked.contains(award_name(u0.adventure_level as nat)->0),
        u2.adventure_level == u0.adventure_level + 1,
        u2.phase == PilotPhase::Title,
        u2.pending_award is None,
        f2.overlay == Overlay::Clear,
        !f2.paused,
        e2.persist && e2.transition,
{
    let n = award_name(u0.adventure_level as nat)->0;
    if !u1.unlocked.contains(n) {
        assert(u1.unlocked.push(n)[u1.unlocked.len() as int] == n);
    }
}

} // verus!
