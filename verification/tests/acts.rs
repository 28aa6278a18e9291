use rozvp::acts::{apply_act, confirm_chooser, open_chooser, ActEffects, UiAct};
use rozvp::flow::{FlowControl, Overlay};
use rozvp::i18n::Localizer;
use rozvp::save::capture_from_ui;
use rozvp::ui::{PilotPhase, PilotUi, SeedSlot};

fn setup() -> (PilotUi, FlowControl, Localizer) {
    let mut ui = PilotUi::default();
    ui.unlocked_seed_names = vec!["Sunflower".into(), "Peashooter".into()];
    let loc = Localizer::new(vec![
        ("en".to_string(), "app-title = RoZVP\n".to_string()),
        ("fr".to_string(), "app-title = RoZVP\n".to_string()),
    ]);
    (ui, FlowControl::new(), loc)
}

#[test]
fn award_chain_unlocks_and_advances() {
    let (mut ui, mut flow, mut loc) = setup();
    flow.overlay = Overlay::LevelComplete;
    let e = apply_act(UiAct::LevelOk, &mut ui, &mut flow, &mut loc);
    assert_eq!(flow.overlay, Overlay::Award);
    assert_eq!(ui.pending_award_seed.as_deref(), Some("Wall-nut"));
    assert!(e.win_cue);
    let e = apply_act(UiAct::AwardOk, &mut ui, &mut flow, &mut loc);
    assert_eq!(flow.overlay, Overlay::Clear);
    assert_eq!(ui.adventure_level, 1);
    assert_eq!(ui.phase, PilotPhase::Title);
    assert!(ui.unlocked_seed_names.contains(&"Wall-nut".to_string()));
    assert!(e.persist);
    let data = capture_from_ui(&ui);
    assert_eq!(data.adventure_level, 1);
    assert!(data.unlocked_seed_names.contains(&"Wall-nut".to_string()));
}

#[test]
fn level_ok_past_the_last_award_moves_on() {
    let (mut ui, mut flow, mut loc) = setup();
    ui.adventure_level = 16;
    flow.overlay = Overlay::LevelComplete;
    flow.paused = true;
    let e = apply_act(UiAct::LevelOk, &mut ui, &mut flow, &mut loc);
    assert_eq!(ui.adventure_level, 17);
    assert_eq!(ui.phase, PilotPhase::Title);
    assert_eq!(flow.overlay, Overlay::Clear);
    assert!(!flow.paused);
    assert_eq!(
        e,
        ActEffects { persist: true, enter_level: None, transition: true, win_cue: true, exit: false }
    );
}

#[test]
fn chooser_picks_cap_and_dedupe() {
    let (mut ui, mut flow, mut loc) = setup();
    for name in ["A", "B", "A", "C", "D", "E", "F", "G", "H", "I", "J", "K"] {
        apply_act(UiAct::ChooserPick(name.to_string()), &mut ui, &mut flow, &mut loc);
    }
    assert_eq!(ui.chooser_picks.len(), 10);
    assert_eq!(ui.chooser_picks[2], "C");
    apply_act(UiAct::ChooserRemove(0), &mut ui, &mut flow, &mut loc);
    assert_eq!(ui.chooser_picks[0], "B");
    apply_act(UiAct::ChooserRemove(50), &mut ui, &mut flow, &mut loc);
    assert_eq!(ui.chooser_picks.len(), 9);
}

#[test]
fn confirm_builds_the_bank_from_unlocked_picks() {
    let (mut ui, mut flow, _) = setup();
    ui.chooser_picks = vec!["Peashooter".into(), "Chomper".into(), "Sunflower".into()];
    ui.sun = 300;
    ui.flags_done = 3;
    ui.shovel_selected = true;
    flow.overlay = Overlay::SeedChooser;
    let e = confirm_chooser(&mut ui, &mut flow);
    let names: Vec<&str> = ui.seed_bank.iter().map(|s| s.seed_name.as_str()).collect();
    assert_eq!(names, vec!["Peashooter", "Sunflower"]);
    assert_eq!(ui.seed_bank[0].cost, 100);
    assert!(ui.seed_bank.iter().all(|s| s.ready && s.affordable && !s.selected));
    assert_eq!(ui.sun, 50);
    assert_eq!(ui.flags_done, 0);
    assert!(!ui.shovel_selected);
    assert_eq!(ui.phase, PilotPhase::InGame);
    assert_eq!(flow.overlay, Overlay::Clear);
    assert_eq!(e.enter_level, Some(0));
    assert!(e.persist && e.transition);
}

#[test]
fn chooser_opens_with_the_bank() {
    let (mut ui, mut flow, _) = setup();
    ui.seed_bank = vec![SeedSlot {
        seed_name: "Sunflower".into(),
        cost: 50,
        ready: true,
        affordable: true,
        selected: false,
    }];
    open_chooser(&mut ui, &mut flow);
    assert_eq!(ui.chooser_picks, vec!["Sunflower".to_string()]);
    assert_eq!(flow.overlay, Overlay::SeedChooser);
}

#[test]
fn back_and_settings_follow_the_pause_state() {
    let (mut ui, mut flow, mut loc) = setup();
    flow.paused = true;
    apply_act(UiAct::OpenSettings, &mut ui, &mut flow, &mut loc);
    assert_eq!(flow.overlay, Overlay::Settings);
    let e = apply_act(UiAct::SaveSettings, &mut ui, &mut flow, &mut loc);
    assert!(e.persist);
    assert_eq!(flow.overlay, Overlay::Pause);
    apply_act(UiAct::Resume, &mut ui, &mut flow, &mut loc);
    assert_eq!(flow.overlay, Overlay::Clear);
    assert!(!flow.paused);
    apply_act(UiAct::OpenCredits, &mut ui, &mut flow, &mut loc);
    apply_act(UiAct::CloseOverlay, &mut ui, &mut flow, &mut loc);
    assert_eq!(flow.overlay, Overlay::Clear);
}

#[test]
fn language_switch_needs_a_catalog() {
    let (mut ui, mut flow, mut loc) = setup();
    apply_act(UiAct::SetLanguage("fr".into()), &mut ui, &mut flow, &mut loc);
    assert_eq!(ui.language, "fr");
    assert_eq!(loc.language(), "fr");
    apply_act(UiAct::SetLanguage("xx".into()), &mut ui, &mut flow, &mut loc);
    assert_eq!(ui.language, "fr");
}

#[test]
fn restart_quit_and_exit_effects() {
    let (mut ui, mut flow, mut loc) = setup();
    ui.adventure_level = 4;
    let e = apply_act(UiAct::Restart, &mut ui, &mut flow, &mut loc);
    assert_eq!(e.enter_level, Some(4));
    let e = apply_act(UiAct::QuitToTitle, &mut ui, &mut flow, &mut loc);
    assert!(e.transition);
    assert_eq!(ui.phase, PilotPhase::Title);
    let e = apply_act(UiAct::QuitApp, &mut ui, &mut flow, &mut loc);
    assert!(e.exit);
}
