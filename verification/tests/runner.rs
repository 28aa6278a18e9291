use rozvp::acts::{advance_boot_phase, overlay_stinger, pause_game, pause_toggle};
use rozvp::audio::Cue;
use rozvp::flow::{FlowControl, Overlay};
use rozvp::input::{context_for, InputContext};
use rozvp::ui::PilotPhase;

fn phase_after(start: PilotPhase, secs: f32) -> PilotPhase {
    let ms = (secs as f64 * 1000.0).round() as u64;
    advance_boot_phase(start, ms)
}

#[test]
fn splash_holds_then_loading_then_title() {
    assert_eq!(phase_after(PilotPhase::Splash, 0.1), PilotPhase::Splash);
    assert_eq!(phase_after(PilotPhase::Splash, 1.6), PilotPhase::Loading);
    assert_eq!(phase_after(PilotPhase::Splash, 2.1), PilotPhase::Title);
    assert_eq!(phase_after(PilotPhase::Loading, 2.1), PilotPhase::Title);
}

#[test]
fn ingame_never_regresses_to_boot() {
    assert_eq!(phase_after(PilotPhase::InGame, 99.0), PilotPhase::InGame);
    assert_eq!(phase_after(PilotPhase::Title, 99.0), PilotPhase::Title);
}

#[test]
fn escape_toggles_pause_while_ingame() {
    let mut flow = FlowControl::new();
    assert_eq!(context_for(PilotPhase::InGame), InputContext::Gameplay);
    let mut pause = || {
        pause_toggle(&mut flow, PilotPhase::InGame, true);
        flow.overlay
    };
    assert_eq!(pause(), Overlay::Pause);
    assert_eq!(pause(), Overlay::Clear);
}

#[test]
fn escape_is_ignored_outside_the_game() {
    let mut flow = FlowControl::new();
    pause_toggle(&mut flow, PilotPhase::Title, true);
    assert_eq!(flow.overlay, Overlay::Clear);
    assert_eq!(context_for(PilotPhase::Title), InputContext::Menu);
    flow.overlay = Overlay::GameOver;
    pause_toggle(&mut flow, PilotPhase::InGame, true);
    assert_eq!(flow.overlay, Overlay::GameOver);
}

#[test]
fn boot_edges_are_inclusive() {
    assert_eq!(advance_boot_phase(PilotPhase::Splash, 1499), PilotPhase::Splash);
    assert_eq!(advance_boot_phase(PilotPhase::Splash, 1500), PilotPhase::Loading);
    assert_eq!(advance_boot_phase(PilotPhase::Loading, 1999), PilotPhase::Loading);
    assert_eq!(advance_boot_phase(PilotPhase::Loading, 2000), PilotPhase::Title);
}

#[test]
fn stingers_play_once_per_change() {
    let mut last = Overlay::Clear;
    assert_eq!(overlay_stinger(&mut last, Overlay::LevelComplete), Some(Cue::Win));
    assert_eq!(overlay_stinger(&mut last, Overlay::LevelComplete), None);
    assert_eq!(overlay_stinger(&mut last, Overlay::Award), Some(Cue::Win));
    assert_eq!(overlay_stinger(&mut last, Overlay::GameOver), Some(Cue::Lose));
    assert_eq!(overlay_stinger(&mut last, Overlay::Pause), None);
    assert_eq!(last, Overlay::Pause);
}

#[test]
fn pause_button_pauses_with_the_menu() {
    let mut flow = FlowControl::new();
    pause_game(&mut flow);
    assert!(flow.paused);
    assert_eq!(flow.overlay, Overlay::Pause);
}
