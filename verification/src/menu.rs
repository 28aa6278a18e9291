//! Menu actions of the full build: what each button press does to the UI,
//! the pause/overlay state, the saved progress and the language choice,
//! and which outside effects (write the save, move to a phase, quit) it
//! asks the application for. Volume sliders carry floating-point values
//! and are applied by the application.

use vstd::prelude::*;

use crate::chooser::{
    add_pick, bank_for, distinct_names, fresh_bank, lemma_filter_keeps_distinct,
    lemma_picks_stay_distinct_and_capped, pick_added, pick_removed, remove_pick, retain_unlocked,
};
use crate::constants::{MAX_CHOOSER_PICKS, STARTING_SUN};
use crate::defs::plant_name;
use crate::economy::{clear_selection, deselected, pick_seed_slot, reselected, SlotPick};
use crate::flow::Overlay;
use crate::level_flow::{
    advance_after_level_complete, award_for_completed_level, ensure_seed_unlocked, name_unlocked,
    normalize_progress_ui, normalized_bank, normalized_unlocked, spec_award, spec_level_label,
};
use crate::save::{persist_progress, SaveProgress, SaveView};
use crate::text::str_eq;
use crate::ui::{contains_name, names, PilotPhase, PilotUi, UiView};

verus! {

/// Button presses of the menus and the in-game HUD.
#[derive(Clone, Debug)]
pub enum UiAction {
    OpenAdventure,
    OpenMiniGames,
    OpenPuzzle,
    OpenSurvival,
    OpenZenGarden,
    OpenAlmanac,
    OpenStore,
    OpenPause,
    ChooserPick(String),
    ChooserRemove(usize),
    ConfirmSeedChooser,
    SelectSeedSlot(usize),
    ToggleShovel,
    ClearCursor,
    RestartLevel,
    DialogOk,
    OpenSettings,
    OpenCredits,
    CloseOverlay,
    Resume,
    QuitToTitle,
    QuitApp,
    SaveSettings,
    NextLanguage,
    SetLanguage(String),
}

/// Pause and overlay state of the full build.
#[derive(Clone, Copy, Debug, PartialEq, Eq, Structural)]
pub struct MenuFlow {
    pub paused: bool,
    pub overlay: Overlay,
    /// A short resume delay is running; when it ends the game unpauses.
    pub unpause_pending: bool,
    /// A level restart was requested and waits to be applied.
    pub restart_pending: bool,
}

impl MenuFlow {
    /// Boot: running, no overlay, nothing pending.
    pub fn new() -> (f: MenuFlow)
        ensures
            f == (MenuFlow {
                paused: false,
                overlay: Overlay::Clear,
                unpause_pending: false,
                restart_pending: false,
            }),
    {
        MenuFlow { paused: false, overlay: Overlay::Clear, unpause_pending: false, restart_pending: false }
    }
}

/// The language in use, the languages that can be chosen, and the one
/// saved (restored when the settings dialog is left unsaved).
#[derive(Debug)]
pub struct LocaleChoice {
    pub current: String,
    pub available: Vec<String>,
    pub saved: String,
}

/// A `LocaleChoice` as mathematical values.
pub struct LocaleView {
    pub current: Seq<char>,
    pub available: Seq<Seq<char>>,
    pub saved: Seq<char>,
}

impl View for LocaleChoice {
    type V = LocaleView;

    open spec fn view(&self) -> LocaleView {
        LocaleView { current: self.current@, available: names(self.available@), saved: self.saved@ }
    }
}

/// What a press asks of the application once the state is updated.
#[derive(Clone, Copy, Debug, PartialEq, Eq, Structural)]
pub struct MenuEffects {
    /// Write the save record.
    pub save: bool,
    /// Start the fade to this phase.
    pub go_to: Option<PilotPhase>,
    /// Quit the application.
    pub exit: bool,
}

/// No outside effect.
pub open spec fn no_effects() -> MenuEffects {
    MenuEffects { save: false, go_to: None, exit: false }
}

/// Name of the seed awarded for completing a level, if any.
pub open spec fn award_name(level: nat) -> Option<Seq<char>> {
    match spec_award(level) {
        Some(k) => Some(plant_name(k)),
        None => None,
    }
}

/// Leaving an overlay with Back: the not-enough-sun note and the chooser
/// close; settings and credits return to the pause menu of a paused game;
/// leaving the pause menu starts the resume delay.
pub open spec fn closed_overlay(f: MenuFlow) -> MenuFlow {
    match f.overlay {
        Overlay::Settings | Overlay::Credits => if f.paused {
            MenuFlow { overlay: Overlay::Pause, ..f }
        } else {
            MenuFlow { overlay: Overlay::Clear, ..f }
        },
        Overlay::Pause => if f.paused {
            MenuFlow { overlay: Overlay::Clear, unpause_pending: true, ..f }
        } else {
            MenuFlow { overlay: Overlay::Clear, ..f }
        },
        _ => MenuFlow { overlay: Overlay::Clear, ..f },
    }
}

/// First position of `x` in `s` (0 when absent).
pub open spec fn first_pos(s: Seq<Seq<char>>, x: Seq<char>) -> int {
    if s.contains(x) {
        choose|i: int| 0 <= i < s.len() && s[i] == x && forall|j: int| 0 <= j < i ==> s[j] != x
    } else {
        0
    }
}

/// The language after "next language": the one after the current in the
/// list, wrapping round.
pub open spec fn next_language(l: LocaleView) -> Seq<char> {
    l.available[(first_pos(l.available, l.current) + 1) % (l.available.len() as int)]
}

/// Confirming the chooser: progress is normalized, picks of locked seeds
/// dropped, progress copied to the save (to be written); with picks left
/// the bank is rebuilt from them, the sun and flag count reset and the
/// level starts.
pub open spec fn confirm_step(
    u0: UiView,
    f0: MenuFlow,
    s0: SaveView,
    u1: UiView,
    f1: MenuFlow,
    s1: SaveView,
    e: MenuEffects,
) -> bool {
    let unlocked = normalized_unlocked(u0.unlocked);
    let picks = u0.picks.filter(name_unlocked(unlocked));
    &&& s1 == SaveView { adventure_level: u0.adventure_level, unlocked, ..s0 }
    &&& if picks.len() == 0 {
        &&& u1 == UiView {
            unlocked,
            level_name: spec_level_label(u0.adventure_level as nat),
            seed_bank: u1.seed_bank,
            picks,
            ..u0
        }
        &&& normalized_bank(u0.seed_bank, unlocked, u1.seed_bank)
        &&& f1 == f0
        &&& e == MenuEffects { save: true, go_to: None, exit: false }
    } else {
        &&& u1 == UiView {
            unlocked,
            level_name: spec_level_label(u0.adventure_level as nat),
            seed_bank: u1.seed_bank,
            picks,
            sun: STARTING_SUN,
            flags_done: 0,
            ..u0
        }
        &&& bank_for(picks, u1.seed_bank)
        &&& f1 == MenuFlow { overlay: Overlay::Clear, ..f0 }
        &&& e == MenuEffects { save: true, go_to: Some(PilotPhase::InGame), exit: false }
    }
}

/// OK on a dialog: a completed level hands out its award (or, past the
/// last award, moves on to the next level and back to the title); the
/// award dialog unlocks the seed and moves on; any other dialog closes.
pub open spec fn dialog_ok_step(
    u0: UiView,
    f0: MenuFlow,
    s0: SaveView,
    u1: UiView,
    f1: MenuFlow,
    s1: SaveView,
    e: MenuEffects,
) -> bool {
    let next = (u0.adventure_level + 1) as u32;
    match f0.overlay {
        Overlay::LevelComplete => match award_name(u0.adventure_level as nat) {
            Some(n) => {
                &&& u1 == UiView { pending_award: Some(n), ..u0 }
                &&& f1 == MenuFlow { overlay: Overlay::Award, ..f0 }
                &&& s1 == s0
                &&& e == no_effects()
            },
            None => {
                &&& u1 == UiView {
                    adventure_level: next,
                    level_name: spec_level_label(next as nat),
                    ..u0
                }
                &&& s1 == SaveView { adventure_level: next, unlocked: u0.unlocked, ..s0 }
                &&& f1 == MenuFlow { overlay: Overlay::Clear, ..f0 }
                &&& e == MenuEffects { save: true, go_to: Some(PilotPhase::Title), exit: false }
            },
        },
        Overlay::Award => {
            let granted = match u0.pending_award {
                Some(n) => if u0.unlocked.contains(n) {
                    u0.unlocked
                } else {
                    u0.unlocked.push(n)
                },
                None => u0.unlocked,
            };
            let unlocked = normalized_unlocked(granted);
            &&& u1 == UiView {
                pending_award: None,
                unlocked,
                adventure_level: next,
                level_name: spec_level_label(next as nat),
                seed_bank: u1.seed_bank,
                ..u0
            }
            &&& normalized_bank(u0.seed_bank, unlocked, u1.seed_bank)
            &&& s1 == SaveView { adventure_level: next, unlocked, ..s0 }
            &&& f1 == MenuFlow { overlay: Overlay::Clear, ..f0 }
            &&& e == MenuEffects { save: true, go_to: Some(PilotPhase::Title), exit: false }
        },
        _ => {
            &&& u1 == u0
            &&& f1 == MenuFlow { overlay: Overlay::Clear, ..f0 }
            &&& s1 == s0
            &&& e == no_effects()
        },
    }
}

/// A press on bank packet `idx` (see `pick_seed_slot`); an unaffordable
/// packet opens the not-enough-sun note.
pub open spec fn slot_step(u0: UiView, f0: MenuFlow, idx: int, u1: UiView, f1: MenuFlow) -> bool {
    if idx >= u0.seed_bank.len() {
        u1 == u0 && f1 == f0
    } else {
        let s = u0.seed_bank[idx];
        if s.ready && s.affordable {
            &&& reselected(u0.seed_bank, u1.seed_bank, idx)
            &&& u1 == UiView { seed_bank: u1.seed_bank, shovel_selected: false, ..u0 }
            &&& f1 == f0
        } else if !s.affordable {
            &&& deselected(u0.seed_bank, u1.seed_bank)
            &&& u1 == UiView { seed_bank: u1.seed_bank, ..u0 }
            &&& f1 == MenuFlow { overlay: Overlay::NotEnoughSun, ..f0 }
        } else {
            u1 == u0 && f1 == f0
        }
    }
}

/// What one press does (the contract of `process_ui_action`).
pub open spec fn menu_step(
    a: UiAction,
    u0: UiView,
    f0: MenuFlow,
    s0: SaveView,
    l0: LocaleView,
    u1: UiView,
    f1: MenuFlow,
    s1: SaveView,
    l1: LocaleView,
    e: MenuEffects,
) -> bool {
    match a {
        UiAction::ChooserPick(n) => {
            &&& u1 == UiView { picks: pick_added(u0.picks, n@), ..u0 }
            &&& f1 == f0 && s1 == s0 && l1 == l0 && e == no_effects()
        },
        UiAction::ChooserRemove(i) => {
            &&& u1 == UiView { picks: pick_removed(u0.picks, i as int), ..u0 }
            &&& f1 == f0 && s1 == s0 && l1 == l0 && e == no_effects()
        },
        UiAction::ConfirmSeedChooser => confirm_step(u0, f0, s0, u1, f1, s1, e) && l1 == l0,
        UiAction::DialogOk => dialog_ok_step(u0, f0, s0, u1, f1, s1, e) && l1 == l0,
        UiAction::SelectSeedSlot(i) => {
            &&& slot_step(u0, f0, i as int, u1, f1)
            &&& s1 == s0 && l1 == l0 && e == no_effects()
        },
        UiAction::ToggleShovel => {
            &&& deselected(u0.seed_bank, u1.seed_bank)
            &&& u1 == UiView {
                seed_bank: u1.seed_bank,
                shovel_selected: !u0.shovel_selected,
                ..u0
            }
            &&& f1 == f0 && s1 == s0 && l1 == l0 && e == no_effects()
        },
        UiAction::ClearCursor => {
            &&& deselected(u0.seed_bank, u1.seed_bank)
            &&& u1 == UiView { seed_bank: u1.seed_bank, shovel_selected: false, ..u0 }
            &&& f1 == f0 && s1 == s0 && l1 == l0 && e == no_effects()
        },
        UiAction::RestartLevel => {
            &&& u1 == UiView { advice_visible: false, ..u0 }
            &&& f1 == MenuFlow { overlay: Overlay::Clear, restart_pending: true, ..f0 }
            &&& s1 == s0 && l1 == l0 && e == no_effects()
        },
        UiAction::SaveSettings => {
            &&& s1 == SaveView { language: l0.current, ..s0 }
            &&& l1 == LocaleView { saved: l0.current, ..l0 }
            &&& f1 == MenuFlow {
                overlay: if f0.paused {
                    Overlay::Pause
                } else {
                    Overlay::Clear
                },
                ..f0
            }
            &&& u1 == u0 && e == MenuEffects { save: true, go_to: None, exit: false }
        },
        _ => {
            &&& u1 == u0 && s1 == s0
            &&& match a {
                UiAction::OpenAdventure => {
                    f1 == MenuFlow { overlay: Overlay::SeedChooser, ..f0 } && l1 == l0 && e
                        == no_effects()
                },
                UiAction::OpenPause => {
                    &&& f1 == MenuFlow {
                        paused: true,
                        overlay: Overlay::Pause,
                        unpause_pending: false,
                        ..f0
                    }
                    &&& l1 == l0 && e == no_effects()
                },
                UiAction::OpenSettings => {
                    &&& f1 == MenuFlow { overlay: Overlay::Settings, ..f0 }
                    &&& l1 == LocaleView { saved: l0.current, ..l0 }
                    &&& e == no_effects()
                },
                UiAction::OpenCredits => {
                    f1 == MenuFlow { overlay: Overlay::Credits, ..f0 } && l1 == l0 && e
                        == no_effects()
                },
                UiAction::CloseOverlay => {
                    &&& f1 == closed_overlay(f0)
                    &&& l1 == if f0.overlay == Overlay::Settings {
                        LocaleView { current: l0.saved, ..l0 }
                    } else {
                        l0
                    }
                    &&& e == no_effects()
                },
                UiAction::Resume => {
                    &&& f1 == MenuFlow { overlay: Overlay::Clear, unpause_pending: true, ..f0 }
                    &&& l1 == l0 && e == no_effects()
                },
                UiAction::QuitToTitle => {
                    &&& f1 == MenuFlow {
                        paused: false,
                        overlay: Overlay::Clear,
                        unpause_pending: false,
                        ..f0
                    }
                    &&& l1 == l0
                    &&& e == MenuEffects { save: false, go_to: Some(PilotPhase::Title), exit: false }
                },
                UiAction::QuitApp => {
                    f1 == f0 && l1 == l0 && e == MenuEffects {
                        save: false,
                        go_to: None,
                        exit: true,
                    }
                },
                UiAction::NextLanguage => {
                    &&& l1 == LocaleView { current: next_language(l0), ..l0 }
                    &&& f1 == f0 && e == no_effects()
                },
                UiAction::SetLanguage(c) => {
                    &&& l1 == if l0.available.contains(c@) {
                        LocaleView { current: c@, ..l0 }
                    } else {
                        l0
                    }
                    &&& f1 == f0 && e == no_effects()
                },
                _ => f1 == f0 && l1 == l0 && e == no_effects(),
            }
        },
    }
}

/// What a press may demand: moving past the last level must fit `u32`;
/// "next language" needs a language to move to.
pub open spec fn menu_step_ok(a: UiAction, u: UiView, f: MenuFlow, l: LocaleView) -> bool {
    &&& (a is DialogOk && (f.overlay == Overlay::LevelComplete || f.overlay == Overlay::Award)
        ==> u.adventure_level < u32::MAX)
    &&& (a is NextLanguage ==> l.available.len() > 0)
}

fn confirm_seed_chooser(ui: &mut PilotUi, flow: &mut MenuFlow, save: &mut SaveProgress) -> (e:
    MenuEffects)
    ensures
        confirm_step(old(ui)@, *old(flow), old(save)@, final(ui)@, *final(flow), final(save)@, e),
{
    normalize_progress_ui(ui);
    let ghost mid = ui@;
    let unlocked = crate::ui::clone_names(&ui.unlocked_seed_names);
    retain_unlocked(&mut ui.chooser_picks, &unlocked);
    persist_progress(save, ui);
    if ui.chooser_picks.len() == 0 {
        assert(ui@ == (UiView { picks: ui@.picks, ..mid }));
        return MenuEffects { save: true, go_to: None, exit: false };
    }
    ui.seed_bank = fresh_bank(&ui.chooser_picks);
    ui.sun = STARTING_SUN;
    ui.flags_done = 0;
    flow.overlay = Overlay::Clear;
    MenuEffects { save: true, go_to: Some(PilotPhase::InGame), exit: false }
}

fn dialog_ok(ui: &mut PilotUi, flow: &mut MenuFlow, save: &mut SaveProgress) -> (e: MenuEffects)
    requires
        (old(flow).overlay == Overlay::LevelComplete || old(flow).overlay == Overlay::Award)
            ==> old(ui).adventure_level < u32::MAX,
    ensures
        dialog_ok_step(old(ui)@, *old(flow), old(save)@, final(ui)@, *final(flow), final(save)@, e),
{
    match flow.overlay {
        Overlay::LevelComplete => {
            match award_for_completed_level(ui.adventure_level) {
                Some(seed) => {
                    ui.pending_award_seed = Some(seed.to_owned());
                    flow.overlay = Overlay::Award;
                    no_effect()
                },
                None => {
                    advance_after_level_complete(ui);
                    persist_progress(save, ui);
                    flow.overlay = Overlay::Clear;
                    MenuEffects { save: true, go_to: Some(PilotPhase::Title), exit: false }
                },
            }
        },
        Overlay::Award => {
            let mut pending: Option<String> = None;
            std::mem::swap(&mut pending, &mut ui.pending_award_seed);
            match pending {
                Some(seed) => {
                    ensure_seed_unlocked(ui, seed.as_str());
                },
                None => {},
            }
            advance_after_level_complete(ui);
            normalize_progress_ui(ui);
            persist_progress(save, ui);
            flow.overlay = Overlay::Clear;
            MenuEffects { save: true, go_to: Some(PilotPhase::Title), exit: false }
        },
        _ => {
            flow.overlay = Overlay::Clear;
            no_effect()
        },
    }
}

fn no_effect() -> (e: MenuEffects)
    ensures
        e == no_effects(),
{
    MenuEffects { save: false, go_to: None, exit: false }
}

fn select_slot(ui: &mut PilotUi, flow: &mut MenuFlow, idx: usize)
    ensures
        slot_step(old(ui)@, *old(flow), idx as int, final(ui)@, *final(flow)),
{
    if pick_seed_slot(ui, idx) == SlotPick::TooPoor {
        flow.overlay = Overlay::NotEnoughSun;
    }
}

fn close_overlay(flow: &mut MenuFlow, locale: &mut LocaleChoice)
    ensures
        *final(flow) == closed_overlay(*old(flow)),
        final(locale)@ == if old(flow).overlay == Overlay::Settings {
            LocaleView { current: old(locale)@.saved, ..old(locale)@ }
        } else {
            old(locale)@
        },
{
    if flow.overlay == Overlay::Settings {
        locale.current = locale.saved.clone();
    }
    match flow.overlay {
        Overlay::Settings | Overlay::Credits => {
            flow.overlay = if flow.paused {
                Overlay::Pause
            } else {
                Overlay::Clear
            };
        },
        Overlay::Pause => {
            if flow.paused {
                flow.unpause_pending = true;
            }
            flow.overlay = Overlay::Clear;
        },
        _ => {
            flow.overlay = Overlay::Clear;
        },
    }
}

/// Position of the first entry equal to `x`, if any.
fn find_name(v: &Vec<String>, x: &str) -> (r: Option<usize>)
    ensures
        match r {
            Some(i) => i < v@.len() && names(v@)[i as int] == x@ && forall|j: int|
                0 <= j < i ==> names(v@)[j] != x@,
            None => !names(v@).contains(x@),
        },
{
    let mut i: usize = 0;
    while i < v.len()
        invariant
            i <= v@.len(),
            forall|j: int| 0 <= j < i ==> names(v@)[j] != x@,
        decreases v@.len() - i,
    {
        if str_eq(v[i].as_str(), x) {
            return Some(i);
        }
        i = i + 1;
    }
    assert forall|j: int| 0 <= j < names(v@).len() implies names(v@)[j] != x@ by {}
    None
}

fn next_lang(locale: &mut LocaleChoice)
    requires
        old(locale).available@.len() > 0,
    ensures
        final(locale)@ == (LocaleView { current: next_language(old(locale)@), ..old(locale)@ }),
{
    let ghost l0 = locale@;
    let idx = match find_name(&locale.available, locale.current.as_str()) {
        Some(i) => {
            proof {
                let w = i as int;
                assert(l0.available.contains(l0.current));
                let c = first_pos(l0.available, l0.current);
                assert(0 <= c < l0.available.len() && l0.available[c] == l0.current);
                if c < w {
                    assert(l0.available[c] != l0.current);
                } else if w < c {
                    assert(l0.available[w] != l0.current);
                }
            }
            i
        },
        None => 0,
    };
    let n: usize = locale.available.len();
    assert(idx < n);
    let next: usize = (idx + 1) % n;
    let code = locale.available[next].clone();
    assert(code@ == l0.available[next as int]);
    locale.current = code;
}

impl LocaleChoice {
    /// Switches to `code` when it is one of the available languages;
    /// otherwise nothing changes.
    pub fn pick_language(&mut self, code: &str)
        ensures
            final(self)@ == if old(self)@.available.contains(code@) {
                LocaleView { current: code@, ..old(self)@ }
            } else {
                old(self)@
            },
    {
        if contains_name(&self.available, code) {
            self.current = code.to_owned();
        }
    }
}

impl MenuFlow {
    /// The resume delay has run out: the game unpauses.
    pub fn finish_unpause(&mut self)
        ensures
            old(self).unpause_pending ==> *final(self) == (MenuFlow {
                unpause_pending: false,
                paused: false,
                ..*old(self)
            }),
            !old(self).unpause_pending ==> *final(self) == *old(self),
    {
        if self.unpause_pending {
            self.unpause_pending = false;
            self.paused = false;
        }
    }
}

/// Applies one press: updates the UI, the pause/overlay state, the save
/// record and the language choice, and says what the application must do
/// next (see `menu_step`).
pub fn process_ui_action(
    action: UiAction,
    ui: &mut PilotUi,
    flow: &mut MenuFlow,
    save: &mut SaveProgress,
    locale: &mut LocaleChoice,
) -> (e: MenuEffects)
    requires
        menu_step_ok(action, old(ui)@, *old(flow), old(locale)@),
    ensures
        menu_step(
            action,
            old(ui)@,
            *old(flow),
            old(save)@,
            old(locale)@,
            final(ui)@,
            *final(flow),
            final(save)@,
            final(locale)@,
            e,
        ),
{
    match action {
        UiAction::OpenAdventure => {
            flow.overlay = Overlay::SeedChooser;
            no_effect()
        },
        UiAction::ChooserPick(name) => {
            add_pick(ui, name);
            no_effect()
        },
        UiAction::ChooserRemove(i) => {
            remove_pick(ui, i);
            no_effect()
        },
        UiAction::ConfirmSeedChooser => confirm_seed_chooser(ui, flow, save),
        UiAction::DialogOk => dialog_ok(ui, flow, save),
        UiAction::SelectSeedSlot(i) => {
            select_slot(ui, flow, i);
            no_effect()
        },
        UiAction::ToggleShovel => {
            ui.shovel_selected = !ui.shovel_selected;
            clear_selection(ui);
            no_effect()
        },
        UiAction::ClearCursor => {
            ui.shovel_selected = false;
            clear_selection(ui);
            no_effect()
        },
        UiAction::OpenMiniGames | UiAction::OpenPuzzle | UiAction::OpenSurvival => no_effect(),
        UiAction::OpenZenGarden | UiAction::OpenAlmanac | UiAction::OpenStore => no_effect(),
        UiAction::OpenPause => {
            flow.paused = true;
            flow.overlay = Overlay::Pause;
            flow.unpause_pending = false;
            no_effect()
        },
        UiAction::RestartLevel => {
            ui.advice.visible = false;
            flow.overlay = Overlay::Clear;
            flow.restart_pending = true;
            no_effect()
        },
        UiAction::OpenSettings => {
            locale.saved = locale.current.clone();
            flow.overlay = Overlay::Settings;
            no_effect()
        },
        UiAction::OpenCredits => {
            flow.overlay = Overlay::Credits;
            no_effect()
        },
        UiAction::CloseOverlay => {
            close_overlay(flow, locale);
            no_effect()
        },
        UiAction::Resume => {
            flow.overlay = Overlay::Clear;
            flow.unpause_pending = true;
            no_effect()
        },
        UiAction::QuitToTitle => {
            flow.paused = false;
            flow.overlay = Overlay::Clear;
            flow.unpause_pending = false;
            MenuEffects { save: false, go_to: Some(PilotPhase::Title), exit: false }
        },
        UiAction::QuitApp => MenuEffects { save: false, go_to: None, exit: true },
        UiAction::SaveSettings => {
            save.language = locale.current.clone();
            locale.saved = locale.current.clone();
            flow.overlay = if flow.paused {
                Overlay::Pause
            } else {
                Overlay::Clear
            };
            MenuEffects { save: true, go_to: None, exit: false }
        },
        UiAction::NextLanguage => {
            next_lang(locale);
            no_effect()
        },
        UiAction::SetLanguage(code) => {
            locale.pick_language(code.as_str());
            no_effect()
        },
    }
}


/// The Escape key in the full build: only in game, when the fade does not
/// block input. On the live lawn it pauses with the pause menu; on the
/// pause menu it starts the resume delay; from settings or credits it goes
/// back to the pause menu of a paused game (or to the lawn). Anything else
/// ignores it.
pub open spec fn escape_step(f: MenuFlow, phase: PilotPhase, blocked: bool, pressed: bool) -> MenuFlow {
    if phase != PilotPhase::InGame || blocked || !pressed {
        f
    } else {
        match f.overlay {
            Overlay::Clear => if !f.paused {
                MenuFlow { paused: true, overlay: Overlay::Pause, unpause_pending: false, ..f }
            } else {
                f
            },
            Overlay::Pause => MenuFlow { overlay: Overlay::Clear, unpause_pending: true, ..f },
            Overlay::Settings | Overlay::Credits => MenuFlow {
                overlay: if f.paused {
                    Overlay::Pause
                } else {
                    Overlay::Clear
                },
                ..f
            },
            _ => f,
        }
    }
}

/// Applies the Escape key (see `escape_step`).
pub fn handle_pause_input(flow: &mut MenuFlow, phase: PilotPhase, input_blocked: bool, escape_pressed: bool)
    ensures
        *final(flow) == escape_step(*old(flow), phase, input_blocked, escape_pressed),
{
    if phase != PilotPhase::InGame || input_blocked || !escape_pressed {
        return;
    }
    match flow.overlay {
        Overlay::Clear => {
            if !flow.paused {
                flow.paused = true;
                flow.overlay = Overlay::Pause;
                flow.unpause_pending = false;
            }
        },
        Overlay::Pause => {
            flow.overlay = Overlay::Clear;
            flow.unpause_pending = true;
        },
        Overlay::Settings | Overlay::Credits => {
            flow.overlay = if flow.paused {
                Overlay::Pause
            } else {
                Overlay::Clear
            };
        },
        _ => {},
    }
}

/// Law: on the live lawn, Escape then Escape (or Escape then Resume) leaves
/// the pause menu closed and the resume delay running.
pub proof fn lemma_escape_round_trip(f: MenuFlow)
    requires
        f.overlay == Overlay::Clear,
        !f.paused,
    ensures
        escape_step(escape_step(f, PilotPhase::InGame, false, true), PilotPhase::InGame, false, true)
            == (MenuFlow { paused: true, overlay: Overlay::Clear, unpause_pending: true, ..f }),
{
}

/// Law: a completed level followed by OK on the award note (with OK on
/// the completion note offering an award) unlocks the awarded seed once,
/// advances the level by one, clears the award, closes the overlays, asks
/// for the save to be written and for the title.
pub proof fn lemma_award_chain(
    u0: UiView,
    f0: MenuFlow,
    s0: SaveView,
    l0: LocaleView,
    u1: UiView,
    f1: MenuFlow,
    s1: SaveView,
    l1: LocaleView,
    e1: MenuEffects,
    u2: UiView,
    f2: MenuFlow,
    s2: SaveView,
    l2: LocaleView,
    e2: MenuEffects,
)
    requires
        f0.overlay == Overlay::LevelComplete,
        award_name(u0.adventure_level as nat) is Some,
        menu_step(UiAction::DialogOk, u0, f0, s0, l0, u1, f1, s1, l1, e1),
        menu_step(UiAction::DialogOk, u1, f1, s1, l1, u2, f2, s2, l2, e2),
    ensures
        f1.overlay == Overlay::Award,
        u2.unlocked.contains(award_name(u0.adventure_level as nat)->0),
        u2.adventure_level == u0.adventure_level + 1,
        u2.pending_award is None,
        f2.overlay == Overlay::Clear,
        s2.adventure_level == u2.adventure_level,
        s2.unlocked == u2.unlocked,
        e2 == (MenuEffects { save: true, go_to: Some(PilotPhase::Title), exit: false }),
{
    let n = award_name(u0.adventure_level as nat)->0;
    let granted = if u0.unlocked.contains(n) {
        u0.unlocked
    } else {
        u0.unlocked.push(n)
    };
    assert(granted.contains(n)) by {
        if !u0.unlocked.contains(n) {
            assert(granted[granted.len() - 1] == n);
        }
    }
    assert(granted.len() > 0);
}

/// Chooser picks free of repeats and within the chooser's limit.
pub open spec fn picks_ok(picks: Seq<Seq<char>>) -> bool {
    distinct_names(picks) && picks.len() <= MAX_CHOOSER_PICKS
}

/// Law: any press keeps the chooser picks free of repeats and within the
/// chooser's limit: choosing adds only a name not yet picked while there is
/// room, dropping removes one, confirming keeps only the unlocked ones, and
/// no other press touches them.
pub proof fn lemma_press_keeps_picks(
    a: UiAction,
    u0: UiView,
    f0: MenuFlow,
    s0: SaveView,
    l0: LocaleView,
    u1: UiView,
    f1: MenuFlow,
    s1: SaveView,
    l1: LocaleView,
    e: MenuEffects,
)
    requires
        picks_ok(u0.picks),
        menu_step(a, u0, f0, s0, l0, u1, f1, s1, l1, e),
    ensures
        picks_ok(u1.picks),
{
    match a {
        UiAction::ChooserPick(n) => {
            lemma_picks_stay_distinct_and_capped(u0.picks, n@, 0);
        },
        UiAction::ChooserRemove(i) => {
            lemma_picks_stay_distinct_and_capped(u0.picks, Seq::empty(), i as int);
        },
        UiAction::ConfirmSeedChooser => {
            lemma_filter_keeps_distinct(u0.picks, name_unlocked(normalized_unlocked(u0.unlocked)));
        },
        _ => {},
    }
}

/// One pass through the menus: `states[k + 1]` (UI, pause and overlay,
/// save, language) is what press `actions[k]` makes of `states[k]`, with
/// effects `effects[k]`.
pub open spec fn is_press_run(
    actions: Seq<UiAction>,
    states: Seq<(UiView, MenuFlow, SaveView, LocaleView)>,
    effects: Seq<MenuEffects>,
) -> bool {
    &&& states.len() == actions.len() + 1
    &&& effects.len() == actions.len()
    &&& forall|k: int|
        0 <= k < actions.len() ==> #[trigger] menu_step(
            actions[k],
            states[k].0,
            states[k].1,
            states[k].2,
            states[k].3,
            states[k + 1].0,
            states[k + 1].1,
            states[k + 1].2,
            states[k + 1].3,
            effects[k],
        )
}

proof fn lemma_press_run_keeps_picks_upto(
    actions: Seq<UiAction>,
    states: Seq<(UiView, MenuFlow, SaveView, LocaleView)>,
    effects: Seq<MenuEffects>,
    k: int,
)
    requires
        is_press_run(actions, states, effects),
        picks_ok(states[0].0.picks),
        0 <= k < states.len(),
    ensures
        picks_ok(states[k].0.picks),
    decreases k,
{
    if k > 0 {
        let j = k - 1;
        lemma_press_run_keeps_picks_upto(actions, states, effects, j);
        assert(menu_step(
            actions[j],
            states[j].0,
            states[j].1,
            states[j].2,
            states[j].3,
            states[j + 1].0,
            states[j + 1].1,
            states[j + 1].2,
            states[j + 1].3,
            effects[j],
        ));
        lemma_press_keeps_picks(
            actions[j],
            states[j].0,
            states[j].1,
            states[j].2,
            states[j].3,
            states[j + 1].0,
            states[j + 1].1,
            states[j + 1].2,
            states[j + 1].3,
            effects[j],
        );
        assert(j + 1 == k);
    }
}

/// Law: over any run of presses, in any order, chooser picks that start
/// free of repeats and within the chooser's limit stay so in every state.
pub proof fn lemma_press_run_keeps_picks(
    actions: Seq<UiAction>,
    states: Seq<(UiView, MenuFlow, SaveView, LocaleView)>,
    effects: Seq<MenuEffects>,
)
    requires
        is_press_run(actions, states, effects),
        picks_ok(states[0].0.picks),
    ensures
        forall|k: int| 0 <= k < states.len() ==> #[trigger] picks_ok(states[k].0.picks),
{
    assert forall|k: int| 0 <= k < states.len() implies #[trigger] picks_ok(states[k].0.picks) by {
        lemma_press_run_keeps_picks_upto(actions, states, effects, k);
    }
}

} // verus!
