use rozvp::advice::{AdviceStage, AdviceState};
use rozvp::board::{Board, Stage};
use rozvp::combat::spawn_mowers;
use rozvp::economy::{SeedBankRuntime, SunStats};
use rozvp::flow::{FlowControl, Overlay};
use rozvp::menu::MenuFlow;
use rozvp::session::{enter_level, exit_level, game_apply_restart, game_enter_level};
use rozvp::ui::{PilotUi, SeedSlot};
use rozvp::waves::WaveState;

struct Session {
    board: Board,
    stats: SunStats,
    runtime: SeedBankRuntime,
    advice: AdviceState,
    flow: FlowControl,
    waves: WaveState,
    ui: PilotUi,
}

fn fresh() -> Session {
    Session {
        board: Board::new(),
        stats: SunStats { collected_total: 0 },
        runtime: SeedBankRuntime::new(),
        advice: AdviceState::new(),
        flow: FlowControl::new(),
        waves: WaveState::new(),
        ui: PilotUi::new(),
    }
}

fn enter(s: &mut Session, level: u32) {
    enter_level(
        &mut s.board,
        &mut s.stats,
        &mut s.runtime,
        &mut s.advice,
        &mut s.flow,
        &mut s.waves,
        &mut s.ui,
        level,
    );
}

#[test]
fn level_zero_enters_clean() {
    let mut s = fresh();
    enter(&mut s, 0);
    let mowers = spawn_mowers().len();
    assert_eq!(mowers, 5);
    assert_eq!(s.board.sun, 50);
    assert!(!s.waves.wave_plans.is_empty());
}

#[test]
fn first_wave_spawns_after_delay() {
    let mut s = fresh();
    enter(&mut s, 0);
    let mut zombies = 0;
    for _ in 0..2000 {
        s.waves.start_wave_if_needed(1);
        if s.waves.spawn_wave_zombies(1).is_some() {
            zombies += 1;
        }
    }
    assert!(zombies >= 1, "zombies = {zombies}");
    assert_eq!(spawn_mowers().len(), 5);
}

#[test]
fn entering_resets_the_session_for_the_level() {
    let mut s = fresh();
    s.board.sun = 999;
    s.stats.collected_total = 7;
    s.flow.overlay = Overlay::GameOver;
    s.flow.paused = true;
    s.ui.adventure_level = 12;
    s.ui.unlocked_seed_names = vec!["Sunflower".into(), "Peashooter".into()];
    s.ui.seed_bank = vec![SeedSlot {
        seed_name: "Peashooter".into(),
        cost: 100,
        ready: false,
        affordable: false,
        selected: true,
    }];
    let level = s.ui.adventure_level;
    enter(&mut s, level);
    assert_eq!(s.board.sun, 50);
    assert_eq!(s.board.stage, Stage::Night);
    assert_eq!(s.stats.collected_total, 0);
    assert_eq!(s.flow.overlay, Overlay::Clear);
    assert!(!s.flow.paused);
    assert_eq!(s.ui.sun, 50);
    assert_eq!(s.ui.flags_total, 8);
    assert_eq!(s.ui.flags_done, 0);
    assert_eq!(s.ui.level_name, "2-3");
    assert_eq!(s.advice.stage, AdviceStage::NightIntro);
    let slot = &s.ui.seed_bank[0];
    assert!(slot.ready && !slot.selected && !slot.affordable);
    assert_eq!(s.waves.num_waves, 8);
}

#[test]
fn full_build_enter_and_restart() {
    let mut s = fresh();
    let mut mflow = MenuFlow::new();
    s.ui.adventure_level = 1;
    s.ui.unlocked_seed_names = vec!["Sunflower".into(), "Peashooter".into()];
    s.ui.seed_bank = vec![SeedSlot {
        seed_name: "Sunflower".into(),
        cost: 50,
        ready: false,
        affordable: false,
        selected: false,
    }];
    game_enter_level(&mut s.board, &mut s.runtime, &mut s.stats, &mut mflow, &mut s.waves, &mut s.ui);
    assert_eq!(s.runtime.recharge_remaining, vec![0]);
    assert!(s.ui.seed_bank[0].affordable);
    assert!(!game_apply_restart(
        &mut s.board,
        &mut s.runtime,
        &mut s.stats,
        &mut s.advice,
        &mut mflow,
        &mut s.waves,
        &mut s.ui
    ));
    mflow.restart_pending = true;
    mflow.paused = true;
    s.board.sun = 10;
    assert!(game_apply_restart(
        &mut s.board,
        &mut s.runtime,
        &mut s.stats,
        &mut s.advice,
        &mut mflow,
        &mut s.waves,
        &mut s.ui
    ));
    assert!(!mflow.restart_pending && !mflow.paused);
    assert_eq!(s.board.sun, 50);
    assert_eq!(s.ui.flags_total, 6);
    exit_level(&mut s.board, &mut s.runtime, &mut s.stats);
    assert!(s.runtime.recharge_remaining.is_empty());
}

#[test]
fn spawned_zombies_take_a_lawn_lane_and_follow_the_plan() {
    let mut s = fresh();
    enter(&mut s, 3);
    let mut rows = Vec::new();
    for _ in 0..20_000 {
        s.waves.start_wave_if_needed(1);
        if let Some(z) = s.waves.spawn_wave_zombies(1) {
            rows.push(z.row);
        }
    }
    assert!(!rows.is_empty());
    assert!(rows.iter().all(|&r| r < 5));
}
