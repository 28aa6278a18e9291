//! Level advice: optional night intro, then click sun, plant a sunflower,
//! zombies coming, the huge-wave announcement, done.

use vstd::prelude::*;

use crate::board::Stage;
use crate::constants::{ADVICE_HOLD_TICKS, HUGE_WAVE_ADVICE_TICKS};
use crate::ui::{PilotUi, UiView};

verus! {

#[derive(Clone, Copy, Debug, PartialEq, Eq, Structural)]
pub enum AdviceStage {
    NightIntro,
    ClickSun,
    PlantSunflower,
    ZombiesComing,
    HugeWave,
    Done,
}

#[derive(Clone, Copy, Debug, PartialEq, Eq, Structural)]
pub struct AdviceState {
    pub stage: AdviceStage,
    pub hold_remaining: i32,
    /// The huge-wave line has been shown (it never repeats).
    pub huge_announced: bool,
}

/// What one advice tick reads from the level.
#[derive(Clone, Copy, Debug)]
pub struct AdviceInputs {
    pub frame_ticks: i32,
    /// Suns collected so far this level.
    pub sun_collected_total: u32,
    /// A Sunflower stands on the lawn.
    pub has_sunflower: bool,
    /// A wave is spawning or on the lawn.
    pub wave_started: bool,
    /// The current wave is a huge wave.
    pub wave_huge: bool,
}

/// Catalog key of each advice line ("" when none shows).
pub open spec fn advice_key(stage: AdviceStage) -> Seq<char> {
    match stage {
        AdviceStage::NightIntro => "advice-night-intro"@,
        AdviceStage::ClickSun => "advice-click-sun"@,
        AdviceStage::PlantSunflower => "advice-plant-sunflower"@,
        AdviceStage::ZombiesComing => "advice-zombies-coming"@,
        AdviceStage::HugeWave => "advice-huge-wave"@,
        AdviceStage::Done => ""@,
    }
}

/// Position of a stage in the advice chain.
pub open spec fn stage_rank(stage: AdviceStage) -> int {
    match stage {
        AdviceStage::NightIntro => 0,
        AdviceStage::ClickSun => 1,
        AdviceStage::PlantSunflower => 2,
        AdviceStage::ZombiesComing => 3,
        AdviceStage::HugeWave => 4,
        AdviceStage::Done => 5,
    }
}

/// The ticks a countdown step takes off (none when the frame ran none).
pub open spec fn elapsed(frame_ticks: i32) -> int {
    if frame_ticks > 0 {
        frame_ticks as int
    } else {
        0
    }
}

/// One advice tick. The huge-wave announcement preempts whatever plays
/// (once); stage transitions use explicit facts (a real collection, an
/// actual Sunflower, a started wave) so they cannot be skipped.
pub open spec fn spec_advice_step(s: AdviceState, inp: AdviceInputs) -> AdviceState {
    let s1 = if inp.wave_huge && !s.huge_announced {
        AdviceState {
            stage: AdviceStage::HugeWave,
            hold_remaining: HUGE_WAVE_ADVICE_TICKS,
            huge_announced: true,
        }
    } else {
        s
    };
    let counted = AdviceState { hold_remaining: (s1.hold_remaining - elapsed(inp.frame_ticks)) as i32, ..s1 };
    match s1.stage {
        AdviceStage::NightIntro => if counted.hold_remaining <= 0 {
            AdviceState { stage: AdviceStage::ClickSun, ..counted }
        } else {
            counted
        },
        AdviceStage::ClickSun => if inp.sun_collected_total > 0 {
            AdviceState { stage: AdviceStage::PlantSunflower, ..s1 }
        } else {
            s1
        },
        AdviceStage::PlantSunflower => if inp.has_sunflower {
            AdviceState {
                stage: AdviceStage::ZombiesComing,
                hold_remaining: ADVICE_HOLD_TICKS,
                ..s1
            }
        } else {
            s1
        },
        AdviceStage::ZombiesComing => if inp.wave_started {
            if counted.hold_remaining <= 0 {
                AdviceState { stage: AdviceStage::Done, ..counted }
            } else {
                counted
            }
        } else {
            s1
        },
        AdviceStage::HugeWave => if counted.hold_remaining <= 0 {
            AdviceState { stage: AdviceStage::Done, ..counted }
        } else {
            counted
        },
        AdviceStage::Done => s1,
    }
}

impl AdviceState {
    /// Day start: the click-sun line, nothing announced.
    pub fn new() -> (a: AdviceState)
        ensures
            a.stage == AdviceStage::ClickSun,
            a.hold_remaining == 0,
            !a.huge_announced,
    {
        AdviceState { stage: AdviceStage::ClickSun, hold_remaining: 0, huge_announced: false }
    }

    /// Night levels open with the no-sky-sun warning; day levels start at
    /// the click-sun line.
    pub fn apply_intro_stage(&mut self, stage: Stage)
        ensures
            stage == Stage::Night ==> final(self).stage == AdviceStage::NightIntro
                && final(self).hold_remaining == HUGE_WAVE_ADVICE_TICKS && final(self).huge_announced
                == old(self).huge_announced,
            stage == Stage::Day ==> *final(self) == *old(self),
    {
        if stage == Stage::Night {
            self.stage = AdviceStage::NightIntro;
            self.hold_remaining = HUGE_WAVE_ADVICE_TICKS;
        }
    }

    /// Fresh advice for a level of the given stage.
    pub fn reset_advice(&mut self, stage: Stage)
        ensures
            final(self).stage == (if stage == Stage::Night {
                AdviceStage::NightIntro
            } else {
                AdviceStage::ClickSun
            }),
            final(self).hold_remaining == (if stage == Stage::Night {
                HUGE_WAVE_ADVICE_TICKS
            } else {
                0
            }),
            !final(self).huge_announced,
    {
        *self = AdviceState::new();
        self.apply_intro_stage(stage);
    }

    /// The countdown of one tick stays in range.
    pub open spec fn step_fits(&self, inp: AdviceInputs) -> bool {
        self.hold_remaining - elapsed(inp.frame_ticks) >= i32::MIN
    }

    /// Advances the advice chain one tick and publishes its line (as a
    /// catalog key) to the UI.
    pub fn tick_advice(&mut self, inp: AdviceInputs, ui: &mut PilotUi)
        requires
            old(self).step_fits(inp),
        ensures
            *final(self) == spec_advice_step(*old(self), inp),
            final(ui).advice.text@ == advice_key(final(self).stage),
            final(ui).advice.visible == (final(self).stage != AdviceStage::Done),
            final(ui).phase == old(ui).phase,
            final(ui).adventure_level == old(ui).adventure_level,
            final(ui).sun == old(ui).sun,
            final(ui)@ == (UiView {
                advice_text: final(ui).advice.text@,
                advice_visible: final(ui).advice.visible,
                ..old(ui)@
            }),
    {
        if inp.wave_huge && !self.huge_announced {
            self.stage = AdviceStage::HugeWave;
            self.hold_remaining = HUGE_WAVE_ADVICE_TICKS;
            self.huge_announced = true;
        }
        let dt: i32 = if inp.frame_ticks > 0 {
            inp.frame_ticks
        } else {
            0
        };
        match self.stage {
            AdviceStage::NightIntro => {
                self.hold_remaining = self.hold_remaining - dt;
                if self.hold_remaining <= 0 {
                    self.stage = AdviceStage::ClickSun;
                }
            },
            AdviceStage::ClickSun => {
                if inp.sun_collected_total > 0 {
                    self.stage = AdviceStage::PlantSunflower;
                }
            },
            AdviceStage::PlantSunflower => {
                if inp.has_sunflower {
                    self.stage = AdviceStage::ZombiesComing;
                    self.hold_remaining = ADVICE_HOLD_TICKS;
                }
            },
            AdviceStage::ZombiesComing => {
                if inp.wave_started {
                    self.hold_remaining = self.hold_remaining - dt;
                    if self.hold_remaining <= 0 {
                        self.stage = AdviceStage::Done;
                    }
                }
            },
            AdviceStage::HugeWave => {
                self.hold_remaining = self.hold_remaining - dt;
                if self.hold_remaining <= 0 {
                    self.stage = AdviceStage::Done;
                }
            },
            AdviceStage::Done => {},
        }
        let (text, visible) = match self.stage {
            AdviceStage::NightIntro => ("advice-night-intro", true),
            AdviceStage::ClickSun => ("advice-click-sun", true),
            AdviceStage::PlantSunflower => ("advice-plant-sunflower", true),
            AdviceStage::ZombiesComing => ("advice-zombies-coming", true),
            AdviceStage::HugeWave => ("advice-huge-wave", true),
            AdviceStage::Done => ("", false),
        };
        ui.advice.text = text.to_owned();
        ui.advice.visible = visible;
    }
}

impl Default for AdviceState {
    fn default() -> (a: AdviceState)
        ensures
            a.stage == AdviceStage::ClickSun,
            a.hold_remaining == 0,
            !a.huge_announced,
    {
        AdviceState::new()
    }
}

/// Law: the huge-wave line is announced at most once. Once announced it
/// stays announced, and a tick only enters the huge-wave line when it was
/// not announced before; after the announcement the chain only moves
/// forward.
pub proof fn lemma_advice_huge_once(s: AdviceState, inp: AdviceInputs)
    requires
        s.hold_remaining - elapsed(inp.frame_ticks) >= i32::MIN,
    ensures
        s.huge_announced ==> spec_advice_step(s, inp).huge_announced,
        spec_advice_step(s, inp).stage == AdviceStage::HugeWave && s.stage != AdviceStage::HugeWave
            ==> !s.huge_announced,
        s.huge_announced ==> stage_rank(spec_advice_step(s, inp).stage) >= stage_rank(s.stage),
{
}

/// Law: without a huge wave the advice chain never moves backwards.
pub proof fn lemma_advice_forward(s: AdviceState, inp: AdviceInputs)
    requires
        !inp.wave_huge,
        s.hold_remaining - elapsed(inp.frame_ticks) >= i32::MIN,
    ensures
        stage_rank(spec_advice_step(s, inp).stage) >= stage_rank(s.stage),
{
}

/// Law: each line waits for its own event. Unless a huge wave comes in
/// to be announced, a tick leaves the click-sun line only once a sun has
/// been collected, the plant-a-sunflower line exactly when a Sunflower
/// stands on the lawn (then on to the zombies-coming line, held 600
/// ticks), and the zombies-coming line only while a wave is on; the
/// advice, once done, stays done. A tick that moves on from any of these
/// lines moves to the next one.
pub proof fn lemma_advice_waits_for_its_event(s: AdviceState, inp: AdviceInputs)
    requires
        !(inp.wave_huge && !s.huge_announced),
        s.hold_remaining - elapsed(inp.frame_ticks) >= i32::MIN,
    ensures
        ({
            let t = spec_advice_step(s, inp);
            &&& s.stage == AdviceStage::ClickSun ==> (t.stage == AdviceStage::ClickSun <==> inp.sun_collected_total == 0)
            &&& s.stage == AdviceStage::ClickSun && inp.sun_collected_total > 0 ==> t.stage == AdviceStage::PlantSunflower
            &&& s.stage == AdviceStage::PlantSunflower && !inp.has_sunflower ==> t == s
            &&& s.stage == AdviceStage::PlantSunflower && inp.has_sunflower ==> t.stage == AdviceStage::ZombiesComing
                && t.hold_remaining == 600
            &&& s.stage == AdviceStage::ZombiesComing && !inp.wave_started ==> t == s
            &&& s.stage == AdviceStage::ZombiesComing ==> t.stage == AdviceStage::ZombiesComing || t.stage == AdviceStage::Done
            &&& s.stage == AdviceStage::Done ==> t == s
            &&& s.stage == AdviceStage::NightIntro ==> t.stage == AdviceStage::NightIntro || t.stage == AdviceStage::ClickSun
        }),
{
}

} // verus!
