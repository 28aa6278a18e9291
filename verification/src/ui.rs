//! The gameplay slice of the UI state shared between the rules and the
//! views: phase, sun, seed bank, advice line, progress, unlocks.

use vstd::prelude::*;

use crate::text::str_eq;

verus! {

/// One packet in the seed bank.
#[derive(Clone, Debug)]
pub struct SeedSlot {
    pub seed_name: String,
    pub cost: i32,
    /// Fully recharged (the packet's fill fraction is presentational).
    pub ready: bool,
    pub affordable: bool,
    pub selected: bool,
}

/// The advice line.
#[derive(Clone, Debug)]
pub struct AdviceUi {
    /// Catalog key of the line ("" when hidden).
    pub text: String,
    pub visible: bool,
}

/// Boot and play phases of the application.
#[derive(Clone, Copy, Debug, PartialEq, Eq, Structural)]
pub enum PilotPhase {
    Splash,
    Loading,
    Title,
    InGame,
}

/// UI state the rules read and write. Volumes and fill fractions are
/// presentational and live with the views.
#[derive(Debug)]
pub struct PilotUi {
    pub phase: PilotPhase,
    pub sun: i32,
    pub level_name: String,
    pub flags_total: u32,
    pub flags_done: u32,
    pub seed_bank: Vec<SeedSlot>,
    pub shovel_selected: bool,
    pub advice: AdviceUi,
    pub adventure_level: u32,
    pub unlocked_seed_names: Vec<String>,
    pub pending_award_seed: Option<String>,
    pub chooser_picks: Vec<String>,
    pub language: String,
}

/// What a `PilotUi` holds, as mathematical values (strings as character
/// sequences).
pub struct UiView {
    pub phase: PilotPhase,
    pub sun: i32,
    pub level_name: Seq<char>,
    pub flags_total: u32,
    pub flags_done: u32,
    pub seed_bank: Seq<SeedSlot>,
    pub shovel_selected: bool,
    pub advice_text: Seq<char>,
    pub advice_visible: bool,
    pub adventure_level: u32,
    pub unlocked: Seq<Seq<char>>,
    pub pending_award: Option<Seq<char>>,
    pub picks: Seq<Seq<char>>,
    pub language: Seq<char>,
}

impl View for PilotUi {
    type V = UiView;

    open spec fn view(&self) -> UiView {
        UiView {
            phase: self.phase,
            sun: self.sun,
            level_name: self.level_name@,
            flags_total: self.flags_total,
            flags_done: self.flags_done,
            seed_bank: self.seed_bank@,
            shovel_selected: self.shovel_selected,
            advice_text: self.advice.text@,
            advice_visible: self.advice.visible,
            adventure_level: self.adventure_level,
            unlocked: names(self.unlocked_seed_names@),
            pending_award: match self.pending_award_seed {
                Some(s) => Some(s@),
                None => None,
            },
            picks: names(self.chooser_picks@),
            language: self.language@,
        }
    }
}

/// The character sequences of a list of strings.
pub open spec fn names(v: Seq<String>) -> Seq<Seq<char>> {
    v.map_values(|s: String| s@)
}

/// The seed names in a bank, in slot order.
pub open spec fn bank_names(bank: Seq<SeedSlot>) -> Seq<Seq<char>> {
    bank.map_values(|s: SeedSlot| s.seed_name@)
}

/// Whether a list of strings holds `n`.
pub fn contains_name(v: &Vec<String>, n: &str) -> (r: bool)
    ensures
        r == names(v@).contains(n@),
{
    let mut i: usize = 0;
    while i < v.len()
        invariant
            i <= v.len(),
            forall|j: int| 0 <= j < i ==> v@[j]@ != n@,
        decreases v.len() - i,
    {
        if str_eq(v[i].as_str(), n) {
            assert(names(v@)[i as int] == n@);
            return true;
        }
        i = i + 1;
    }
    assert forall|j: int| 0 <= j < names(v@).len() implies names(v@)[j] != n@ by {
        assert(names(v@)[j] == v@[j]@);
    }
    false
}

/// A copy of a list of strings.
pub fn clone_names(v: &Vec<String>) -> (r: Vec<String>)
    ensures
        names(r@) == names(v@),
{
    let mut r: Vec<String> = Vec::new();
    let mut i: usize = 0;
    while i < v.len()
        invariant
            i <= v@.len(),
            r@.len() == i,
            forall|j: int| 0 <= j < i ==> (#[trigger] r@[j])@ == v@[j]@,
        decreases v@.len() - i,
    {
        r.push(v[i].clone());
        i = i + 1;
    }
    assert(names(r@) == names(v@));
    r
}

impl PilotUi {
    /// Boot state: splash, nothing unlocked yet, English.
    pub open spec fn is_initial(&self) -> bool {
        &&& self.phase == PilotPhase::Splash
        &&& self.sun == 0
        &&& self.level_name@ == Seq::<char>::empty()
        &&& self.flags_total == 0
        &&& self.flags_done == 0
        &&& self.seed_bank@.len() == 0
        &&& !self.shovel_selected
        &&& self.advice.text@ == Seq::<char>::empty()
        &&& !self.advice.visible
        &&& self.adventure_level == 0
        &&& self.unlocked_seed_names@.len() == 0
        &&& self.pending_award_seed is None
        &&& self.chooser_picks@.len() == 0
        &&& self.language@ == "en"@
    }

    /// Boot state.
    pub fn new() -> (ui: PilotUi)
        ensures
            ui.is_initial(),
    {
        PilotUi {
            phase: PilotPhase::Splash,
            sun: 0,
            level_name: String::new(),
            flags_total: 0,
            flags_done: 0,
            seed_bank: Vec::new(),
            shovel_selected: false,
            advice: AdviceUi { text: String::new(), visible: false },
            adventure_level: 0,
            unlocked_seed_names: Vec::new(),
            pending_award_seed: None,
            chooser_picks: Vec::new(),
            language: "en".to_owned(),
        }
    }
}

impl PilotUi {
    /// The full build's boot state: splash, 50 sun, level "1-1" with one
    /// flag, a Sunflower and Peashooter bank (also the chooser's picks and
    /// the unlocks), English.
    pub fn shared_default() -> (ui: PilotUi)
        ensures
            ui.phase == PilotPhase::Splash,
            ui.sun == 50,
            ui.level_name@ == crate::level_flow::spec_level_label(0),
            ui.flags_total == 1,
            ui.flags_done == 0,
            ui.seed_bank@.len() == 2,
            crate::level_flow::is_fresh_slot(ui.seed_bank@[0], "Sunflower"@),
            crate::level_flow::is_fresh_slot(ui.seed_bank@[1], "Peashooter"@),
            !ui.shovel_selected,
            ui.advice.text@ == Seq::<char>::empty(),
            !ui.advice.visible,
            ui.adventure_level == 0,
            names(ui.unlocked_seed_names@) == crate::level_flow::spec_starting_seeds(),
            ui.pending_award_seed is None,
            names(ui.chooser_picks@) == crate::level_flow::spec_starting_seeds(),
            ui.language@ == "en"@,
    {
        let picks = crate::level_flow::starting_unlocked_seeds();
        let bank = crate::chooser::fresh_bank(&picks);
        PilotUi {
            phase: PilotPhase::Splash,
            sun: 50,
            level_name: crate::level_flow::level_label(0),
            flags_total: 1,
            flags_done: 0,
            seed_bank: bank,
            shovel_selected: false,
            advice: AdviceUi { text: String::new(), visible: false },
            adventure_level: 0,
            unlocked_seed_names: crate::level_flow::starting_unlocked_seeds(),
            pending_award_seed: None,
            chooser_picks: picks,
            language: "en".to_owned(),
        }
    }
}

impl Default for PilotUi {
    fn default() -> (ui: PilotUi)
        ensures
            ui.is_initial(),
    {
        PilotUi::new()
    }
}

} // verus!
