//! Starting a level: the lawn, the wave director, the seed bank and the
//! advice line are reset for the level; the UI is brought in line with
//! the player's progress. Spawning the mowers and clearing the scene are
//! the application's part.

use vstd::prelude::*;

use crate::advice::{AdviceStage, AdviceState};
use crate::board::{Board, Stage};
use crate::constants::HUGE_WAVE_ADVICE_TICKS;
use crate::economy::{SeedBankRuntime, SunStats};
use crate::flow::{FlowControl, Overlay};
use crate::level_flow::{
    normalize_progress_ui, normalized_unlocked, slot_unlocked, spec_level_label,
    spec_refill_names, spec_stage_for_level, spec_wave_count,
    stage_for_level,
};
use crate::defs::name_cost;
use crate::ui::{PilotUi, SeedSlot, UiView};
use crate::menu::MenuFlow;
use crate::waves::{level_fits, WaveState};

verus! {

/// (name, cost) of each packet in a bank.
pub open spec fn bank_entries(bank: Seq<SeedSlot>) -> Seq<(Seq<char>, int)> {
    bank.map_values(|s: SeedSlot| (s.seed_name@, s.cost as int))
}

/// (name, cost) of the packets a normalized bank holds: the unlocked
/// packets kept in order, or, when none is left, the refill seeds
/// (`spec_refill_names`) at their table price.
pub open spec fn normalized_entries(old_bank: Seq<SeedSlot>, unlocked: Seq<Seq<char>>) -> Seq<
    (Seq<char>, int),
> {
    let kept = old_bank.filter(slot_unlocked(unlocked));
    if kept.len() > 0 {
        bank_entries(kept)
    } else {
        spec_refill_names(unlocked).map_values(|n: Seq<char>| (n, name_cost(n)))
    }
}

/// Every packet full, unselected, and affordable exactly when `sun` covers it.
pub open spec fn bank_refreshed(bank: Seq<SeedSlot>, sun: i32) -> bool {
    forall|i: int|
        0 <= i < bank.len() ==> {
            &&& (#[trigger] bank[i]).ready
            &&& !bank[i].selected
            &&& bank[i].affordable == (sun >= bank[i].cost)
        }
}

/// Loads a level into the running session: the lawn's stage, every wave
/// plan, a clear recharge table, the UI (normalized progress, the board's
/// sun, the flag count, a refreshed unselected bank, no shovel) and the
/// stage's advice intro.
pub fn load_level(
    board: &mut Board,
    waves: &mut WaveState,
    runtime: &mut SeedBankRuntime,
    ui: &mut PilotUi,
    advice: &mut AdviceState,
    adventure_level: u32,
)
    requires
        level_fits(adventure_level as nat),
    ensures
        final(board).stage == spec_stage_for_level(adventure_level as nat),
        final(board).cells@ == old(board).cells@,
        final(board).sun == old(board).sun,
        final(board).sun_collected_total == old(board).sun_collected_total,
        final(board).sky_sun_timer == old(board).sky_sun_timer,
        final(waves).is_loaded_for(adventure_level as nat),
        final(runtime).recharge_remaining@.len() == 0,
        ({
            let unlocked = normalized_unlocked(old(ui)@.unlocked);
            &&& final(ui)@ == (UiView {
                unlocked,
                level_name: spec_level_label(old(ui).adventure_level as nat),
                seed_bank: final(ui).seed_bank@,
                sun: old(board).sun,
                shovel_selected: false,
                flags_total: spec_wave_count(adventure_level as nat) as u32,
                flags_done: 0,
                ..old(ui)@
            })
            &&& bank_entries(final(ui).seed_bank@) == normalized_entries(old(ui).seed_bank@, unlocked)
            &&& bank_refreshed(final(ui).seed_bank@, old(board).sun)
        }),
        final(advice).stage == (if spec_stage_for_level(adventure_level as nat) == Stage::Night {
            AdviceStage::NightIntro
        } else {
            AdviceStage::ClickSun
        }),
        final(advice).hold_remaining == (if spec_stage_for_level(adventure_level as nat)
            == Stage::Night {
            HUGE_WAVE_ADVICE_TICKS
        } else {
            0
        }),
        !final(advice).huge_announced,
{
    let stage = stage_for_level(adventure_level);
    board.stage = stage;
    waves.load_wave_plans(adventure_level);
    runtime.recharge_remaining = Vec::new();
    let ghost u0 = ui@;
    normalize_progress_ui(ui);
    let ghost nb = ui.seed_bank@;
    proof {
        let unlocked = normalized_unlocked(u0.unlocked);
        let kept = u0.seed_bank.filter(slot_unlocked(unlocked));
        if kept.len() > 0 {
            assert(bank_entries(nb) == normalized_entries(u0.seed_bank, unlocked));
        } else {
            let refill = spec_refill_names(unlocked);
            assert(bank_entries(nb) =~= normalized_entries(u0.seed_bank, unlocked)) by {
                assert forall|i: int| 0 <= i < nb.len() implies #[trigger] bank_entries(nb)[i]
                    == normalized_entries(u0.seed_bank, unlocked)[i] by {
                    assert(crate::level_flow::is_fresh_slot(nb[i], refill[i]));
                }
            }
        }
    }
    let sun = board.sun;
    ui.sun = sun;
    ui.shovel_selected = false;
    let n = waves.num_waves;
    ui.flags_total = if n > 1 {
        n
    } else {
        1
    };
    ui.flags_done = 0;
    let ghost mid = ui@;
    let mut i: usize = 0;
    while i < ui.seed_bank.len()
        invariant
            i <= ui.seed_bank@.len(),
            ui.seed_bank@.len() == nb.len(),
            ui@ == (UiView { seed_bank: ui.seed_bank@, ..mid }),
            forall|j: int|
                0 <= j < nb.len() ==> (#[trigger] ui.seed_bank@[j]).seed_name@ == nb[j].seed_name@
                    && ui.seed_bank@[j].cost == nb[j].cost,
            forall|j: int|
                0 <= j < i ==> {
                    &&& (#[trigger] ui.seed_bank@[j]).ready
                    &&& !ui.seed_bank@[j].selected
                    &&& ui.seed_bank@[j].affordable == (sun >= ui.seed_bank@[j].cost)
                },
        decreases nb.len() - i,
    {
        let mut slot = ui.seed_bank.remove(i);
        slot.selected = false;
        slot.ready = true;
        slot.affordable = sun >= slot.cost;
        ui.seed_bank.insert(i, slot);
        i = i + 1;
    }
    assert(bank_entries(ui.seed_bank@) =~= bank_entries(nb));
    advice.reset_advice(stage);
}

/// Starts (or restarts) a level: a fresh lawn, no sun collected, no
/// recharges, fresh advice, running with no overlay and no restart pending,
/// then the level loaded (see `load_level`).
pub fn enter_level(
    board: &mut Board,
    stats: &mut SunStats,
    runtime: &mut SeedBankRuntime,
    advice: &mut AdviceState,
    flow: &mut FlowControl,
    waves: &mut WaveState,
    ui: &mut PilotUi,
    adventure_level: u32,
)
    requires
        level_fits(adventure_level as nat),
    ensures
        final(board).wf(),
        forall|i: int| 0 <= i < final(board).cells@.len() ==> #[trigger] final(board).cells@[i] is None,
        final(board).sun == crate::constants::STARTING_SUN,
        final(board).sun_collected_total == 0,
        final(board).sky_sun_timer == crate::constants::SKY_SUN_INTERVAL_TICKS,
        final(board).stage == spec_stage_for_level(adventure_level as nat),
        final(stats).collected_total == 0,
        *final(flow) == (FlowControl { paused: false, overlay: Overlay::Clear, pending_restart: false }),
        final(waves).is_loaded_for(adventure_level as nat),
        final(runtime).recharge_remaining@.len() == 0,
        ({
            let unlocked = normalized_unlocked(old(ui)@.unlocked);
            &&& final(ui)@ == (UiView {
                unlocked,
                level_name: spec_level_label(old(ui).adventure_level as nat),
                seed_bank: final(ui).seed_bank@,
                sun: crate::constants::STARTING_SUN,
                shovel_selected: false,
                flags_total: spec_wave_count(adventure_level as nat) as u32,
                flags_done: 0,
                ..old(ui)@
            })
            &&& bank_entries(final(ui).seed_bank@) == normalized_entries(old(ui).seed_bank@, unlocked)
            &&& bank_refreshed(final(ui).seed_bank@, crate::constants::STARTING_SUN)
        }),
        final(advice).stage == (if spec_stage_for_level(adventure_level as nat) == Stage::Night {
            AdviceStage::NightIntro
        } else {
            AdviceStage::ClickSun
        }),
        final(advice).hold_remaining == (if spec_stage_for_level(adventure_level as nat)
            == Stage::Night {
            HUGE_WAVE_ADVICE_TICKS
        } else {
            0
        }),
        !final(advice).huge_announced,
{
    board.reset();
    stats.collected_total = 0;
    runtime.recharge_remaining = Vec::new();
    *advice = AdviceState::new();
    flow.paused = false;
    flow.overlay = Overlay::Clear;
    flow.pending_restart = false;
    load_level(board, waves, runtime, ui, advice, adventure_level);
}


/// The full build's level setup, shared by entering and restarting: the
/// UI is normalized, the lawn takes the stage of the player's level, the
/// waves are planned, every packet gets a ready recharge slot, and the UI
/// shows the board's sun, the flag count and a refreshed bank.
fn fill_level(board: &mut Board, waves: &mut WaveState, runtime: &mut SeedBankRuntime, ui: &mut PilotUi)
    requires
        level_fits(old(ui).adventure_level as nat),
    ensures
        final(board).stage == spec_stage_for_level(old(ui).adventure_level as nat),
        final(board).cells@ == old(board).cells@,
        final(board).sun == old(board).sun,
        final(board).sun_collected_total == old(board).sun_collected_total,
        final(board).sky_sun_timer == old(board).sky_sun_timer,
        final(waves).is_loaded_for(old(ui).adventure_level as nat),
        final(runtime).recharge_remaining@.len() == final(ui).seed_bank@.len(),
        forall|i: int| 0 <= i < final(runtime).recharge_remaining@.len() ==> #[trigger] final(runtime).recharge_remaining@[i] == 0,
        ({
            let unlocked = normalized_unlocked(old(ui)@.unlocked);
            &&& final(ui)@ == (UiView {
                unlocked,
                level_name: spec_level_label(old(ui).adventure_level as nat),
                seed_bank: final(ui).seed_bank@,
                sun: old(board).sun,
                shovel_selected: false,
                flags_total: spec_wave_count(old(ui).adventure_level as nat) as u32,
                flags_done: 0,
                ..old(ui)@
            })
            &&& bank_entries(final(ui).seed_bank@) == normalized_entries(old(ui).seed_bank@, unlocked)
            &&& bank_refreshed(final(ui).seed_bank@, old(board).sun)
        }),
{
    let level = ui.adventure_level;
    let mut advice = AdviceState::new();
    load_level(board, waves, runtime, ui, &mut advice, level);
    let mut zeros: Vec<i32> = Vec::new();
    let mut i: usize = 0;
    while i < ui.seed_bank.len()
        invariant
            i <= ui.seed_bank@.len(),
            zeros@.len() == i,
            forall|j: int| 0 <= j < i ==> #[trigger] zeros@[j] == 0,
        decreases ui.seed_bank@.len() - i,
    {
        zeros.push(0);
        i = i + 1;
    }
    runtime.recharge_remaining = zeros;
}

/// Entering a level in the full build: a fresh lawn, no sun collected, the
/// game running with no overlay, and the level set up for the player's
/// progress (see `fill_level`).
pub fn game_enter_level(
    board: &mut Board,
    runtime: &mut SeedBankRuntime,
    stats: &mut SunStats,
    flow: &mut MenuFlow,
    waves: &mut WaveState,
    ui: &mut PilotUi,
)
    requires
        level_fits(old(ui).adventure_level as nat),
    ensures
        final(board).wf(),
        forall|i: int| 0 <= i < final(board).cells@.len() ==> #[trigger] final(board).cells@[i] is None,
        final(board).sun == crate::constants::STARTING_SUN,
        final(board).stage == spec_stage_for_level(old(ui).adventure_level as nat),
        final(stats).collected_total == 0,
        *final(flow) == (MenuFlow { overlay: Overlay::Clear, paused: false, ..*old(flow) }),
        final(waves).is_loaded_for(old(ui).adventure_level as nat),
        final(runtime).recharge_remaining@.len() == final(ui).seed_bank@.len(),
        forall|i: int| 0 <= i < final(runtime).recharge_remaining@.len() ==> #[trigger] final(runtime).recharge_remaining@[i] == 0,
        ({
            let unlocked = normalized_unlocked(old(ui)@.unlocked);
            &&& final(ui)@ == (UiView {
                unlocked,
                level_name: spec_level_label(old(ui).adventure_level as nat),
                seed_bank: final(ui).seed_bank@,
                sun: crate::constants::STARTING_SUN,
                shovel_selected: false,
                flags_total: spec_wave_count(old(ui).adventure_level as nat) as u32,
                flags_done: 0,
                ..old(ui)@
            })
            &&& bank_entries(final(ui).seed_bank@) == normalized_entries(old(ui).seed_bank@, unlocked)
            &&& bank_refreshed(final(ui).seed_bank@, crate::constants::STARTING_SUN)
        }),
{
    board.reset();
    stats.collected_total = 0;
    runtime.recharge_remaining = Vec::new();
    flow.overlay = Overlay::Clear;
    flow.paused = false;
    fill_level(board, waves, runtime, ui);
}

/// Applying a pending restart in the full build: the request is consumed,
/// the lawn, sun count and advice start fresh (with the stage's intro), the
/// game runs with no overlay, and the level is set up again. Returns false
/// (changing nothing) when no restart is pending.
pub fn game_apply_restart(
    board: &mut Board,
    runtime: &mut SeedBankRuntime,
    stats: &mut SunStats,
    advice: &mut AdviceState,
    flow: &mut MenuFlow,
    waves: &mut WaveState,
    ui: &mut PilotUi,
) -> (restarted: bool)
    requires
        level_fits(old(ui).adventure_level as nat),
    ensures
        restarted == old(flow).restart_pending,
        !restarted ==> *final(flow) == *old(flow) && final(ui)@ == old(ui)@ && *final(stats)
            == *old(stats) && *final(advice) == *old(advice),
        restarted ==> {
            &&& final(board).wf()
            &&& forall|i: int| 0 <= i < final(board).cells@.len() ==> #[trigger] final(board).cells@[i] is None
            &&& final(board).sun == crate::constants::STARTING_SUN
            &&& final(board).stage == spec_stage_for_level(old(ui).adventure_level as nat)
            &&& final(stats).collected_total == 0
            &&& *final(flow) == (MenuFlow {
                overlay: Overlay::Clear,
                paused: false,
                restart_pending: false,
                ..*old(flow)
            })
            &&& final(waves).is_loaded_for(old(ui).adventure_level as nat)
            &&& final(runtime).recharge_remaining@.len() == final(ui).seed_bank@.len()
            &&& final(advice).stage == (if spec_stage_for_level(old(ui).adventure_level as nat)
                == Stage::Night {
                AdviceStage::NightIntro
            } else {
                AdviceStage::ClickSun
            })
            &&& !final(advice).huge_announced
            &&& final(ui)@ == (UiView {
                unlocked: normalized_unlocked(old(ui)@.unlocked),
                level_name: spec_level_label(old(ui).adventure_level as nat),
                seed_bank: final(ui).seed_bank@,
                sun: crate::constants::STARTING_SUN,
                shovel_selected: false,
                flags_total: spec_wave_count(old(ui).adventure_level as nat) as u32,
                flags_done: 0,
                ..old(ui)@
            })
            &&& bank_entries(final(ui).seed_bank@) == normalized_entries(
                old(ui).seed_bank@,
                normalized_unlocked(old(ui)@.unlocked),
            )
            &&& bank_refreshed(final(ui).seed_bank@, crate::constants::STARTING_SUN)
        },
{
    if !flow.restart_pending {
        return false;
    }
    flow.restart_pending = false;
    board.reset();
    stats.collected_total = 0;
    runtime.recharge_remaining = Vec::new();
    flow.paused = false;
    flow.overlay = Overlay::Clear;
    let stage = stage_for_level(ui.adventure_level);
    advice.reset_advice(stage);
    fill_level(board, waves, runtime, ui);
    true
}

/// Leaving a level: a fresh lawn, no recharges, no sun collected.
pub fn exit_level(board: &mut Board, runtime: &mut SeedBankRuntime, stats: &mut SunStats)
    ensures
        final(board).is_fresh(),
        final(runtime).recharge_remaining@.len() == 0,
        final(stats).collected_total == 0,
{
    board.reset();
    runtime.recharge_remaining = Vec::new();
    stats.collected_total = 0;
}

} // verus!
