use rozvp::flow::Overlay;
use rozvp::menu::{handle_pause_input, process_ui_action, LocaleChoice, MenuEffects, MenuFlow, UiAction};
use rozvp::save::SaveProgress;
use rozvp::ui::{PilotPhase, PilotUi, SeedSlot};

fn slot(name: &str, cost: i32, ready: bool, affordable: bool) -> SeedSlot {
    SeedSlot { seed_name: name.into(), cost, ready, affordable, selected: false }
}

fn setup() -> (PilotUi, MenuFlow, SaveProgress, LocaleChoice) {
    let mut ui = PilotUi::default();
    ui.unlocked_seed_names = vec!["Sunflower".into(), "Peashooter".into()];
    let locale = LocaleChoice {
        current: "en".into(),
        available: vec!["de".into(), "en".into(), "fr".into()],
        saved: "en".into(),
    };
    (ui, MenuFlow::new(), SaveProgress::default(), locale)
}

fn act(a: UiAction, s: &mut (PilotUi, MenuFlow, SaveProgress, LocaleChoice)) -> MenuEffects {
    process_ui_action(a, &mut s.0, &mut s.1, &mut s.2, &mut s.3)
}

#[test]
fn dialog_ok_runs_the_award_chain() {
    let mut s = setup();
    s.1.overlay = Overlay::LevelComplete;
    let e = act(UiAction::DialogOk, &mut s);
    assert_eq!(e, MenuEffects { save: false, go_to: None, exit: false });
    assert_eq!(s.1.overlay, Overlay::Award);
    assert_eq!(s.0.pending_award_seed.as_deref(), Some("Wall-nut"));
    let e = act(UiAction::DialogOk, &mut s);
    assert_eq!(e, MenuEffects { save: true, go_to: Some(PilotPhase::Title), exit: false });
    assert_eq!(s.1.overlay, Overlay::Clear);
    assert_eq!(s.0.adventure_level, 1);
    assert_eq!(s.0.level_name, "1-2");
    assert!(s.0.pending_award_seed.is_none());
    assert!(s.0.unlocked_seed_names.contains(&"Wall-nut".to_string()));
    assert_eq!(s.2.adventure_level, 1);
    assert_eq!(s.2.unlocked_seed_names, s.0.unlocked_seed_names);
}

#[test]
fn confirm_prunes_locked_picks_and_starts_the_level() {
    let mut s = setup();
    s.0.chooser_picks = vec!["Chomper".into(), "Sunflower".into()];
    s.0.sun = 999;
    let e = act(UiAction::ConfirmSeedChooser, &mut s);
    assert_eq!(e, MenuEffects { save: true, go_to: Some(PilotPhase::InGame), exit: false });
    assert_eq!(s.0.chooser_picks, vec!["Sunflower".to_string()]);
    assert_eq!(s.0.seed_bank.len(), 1);
    assert_eq!(s.0.seed_bank[0].seed_name, "Sunflower");
    assert_eq!(s.0.sun, 50);
    assert_eq!(s.1.overlay, Overlay::Clear);
}

#[test]
fn confirm_with_nothing_left_only_saves() {
    let mut s = setup();
    s.1.overlay = Overlay::SeedChooser;
    s.0.chooser_picks = vec!["Chomper".into()];
    let e = act(UiAction::ConfirmSeedChooser, &mut s);
    assert_eq!(e, MenuEffects { save: true, go_to: None, exit: false });
    assert!(s.0.chooser_picks.is_empty());
    assert_eq!(s.1.overlay, Overlay::SeedChooser);
}

#[test]
fn seed_slots_select_or_complain() {
    let mut s = setup();
    s.0.seed_bank = vec![slot("Sunflower", 50, true, true), slot("Peashooter", 100, true, false)];
    s.0.shovel_selected = true;
    act(UiAction::SelectSeedSlot(0), &mut s);
    assert!(s.0.seed_bank[0].selected && !s.0.shovel_selected);
    act(UiAction::SelectSeedSlot(1), &mut s);
    assert!(!s.0.seed_bank[0].selected);
    assert_eq!(s.1.overlay, Overlay::NotEnoughSun);
    act(UiAction::CloseOverlay, &mut s);
    assert_eq!(s.1.overlay, Overlay::Clear);
    act(UiAction::ToggleShovel, &mut s);
    assert!(s.0.shovel_selected);
    act(UiAction::ClearCursor, &mut s);
    assert!(!s.0.shovel_selected);
}

#[test]
fn pause_resume_and_quit() {
    let mut s = setup();
    act(UiAction::OpenPause, &mut s);
    assert!(s.1.paused);
    assert_eq!(s.1.overlay, Overlay::Pause);
    act(UiAction::OpenCredits, &mut s);
    act(UiAction::CloseOverlay, &mut s);
    assert_eq!(s.1.overlay, Overlay::Pause);
    act(UiAction::CloseOverlay, &mut s);
    assert_eq!(s.1.overlay, Overlay::Clear);
    assert!(s.1.unpause_pending);
    let e = act(UiAction::QuitToTitle, &mut s);
    assert_eq!(e.go_to, Some(PilotPhase::Title));
    assert!(!s.1.paused && !s.1.unpause_pending);
    assert!(act(UiAction::QuitApp, &mut s).exit);
}

#[test]
fn settings_restore_unsaved_language() {
    let mut s = setup();
    act(UiAction::OpenSettings, &mut s);
    act(UiAction::SetLanguage("fr".into()), &mut s);
    assert_eq!(s.3.current, "fr");
    act(UiAction::SetLanguage("xx".into()), &mut s);
    assert_eq!(s.3.current, "fr");
    act(UiAction::CloseOverlay, &mut s);
    assert_eq!(s.3.current, "en");
    act(UiAction::OpenSettings, &mut s);
    act(UiAction::NextLanguage, &mut s);
    assert_eq!(s.3.current, "fr");
    act(UiAction::NextLanguage, &mut s);
    assert_eq!(s.3.current, "de");
    let e = act(UiAction::SaveSettings, &mut s);
    assert!(e.save);
    assert_eq!(s.2.language, "de");
    assert_eq!(s.3.saved, "de");
}

#[test]
fn restart_request_waits_for_the_game() {
    let mut s = setup();
    s.0.advice.visible = true;
    act(UiAction::RestartLevel, &mut s);
    assert!(s.1.restart_pending);
    assert!(!s.0.advice.visible);
    assert_eq!(act(UiAction::OpenZenGarden, &mut s), MenuEffects { save: false, go_to: None, exit: false });
}

#[test]
fn escape_pauses_and_resumes_in_game() {
    let mut f = MenuFlow::new();
    handle_pause_input(&mut f, PilotPhase::Title, false, true);
    assert_eq!(f, MenuFlow::new());
    handle_pause_input(&mut f, PilotPhase::InGame, false, true);
    assert!(f.paused);
    assert_eq!(f.overlay, Overlay::Pause);
    handle_pause_input(&mut f, PilotPhase::InGame, true, true);
    assert_eq!(f.overlay, Overlay::Pause);
    handle_pause_input(&mut f, PilotPhase::InGame, false, true);
    assert_eq!(f.overlay, Overlay::Clear);
    assert!(f.unpause_pending);
}

#[test]
fn resume_delay_unpauses_when_it_ends() {
    let mut f = MenuFlow::new();
    f.paused = true;
    f.finish_unpause();
    assert!(f.paused);
    f.unpause_pending = true;
    f.finish_unpause();
    assert!(!f.paused && !f.unpause_pending);
}

#[test]
fn saved_language_applies_only_when_available() {
    let (_, _, _, mut locale) = setup();
    locale.pick_language("xx");
    assert_eq!(locale.current, "en");
    locale.pick_language("de");
    assert_eq!(locale.current, "de");
}

#[test]
fn full_build_boot_state() {
    let ui = PilotUi::shared_default();
    assert_eq!(ui.phase, PilotPhase::Splash);
    assert_eq!(ui.sun, 50);
    assert_eq!(ui.level_name, "1-1");
    assert_eq!(ui.flags_total, 1);
    assert_eq!(ui.chooser_picks, vec!["Sunflower".to_string(), "Peashooter".to_string()]);
    assert_eq!(ui.seed_bank[1].cost, 100);
}

#[test]
fn chooser_picks_stay_distinct_and_capped_over_many_presses() {
    let mut s = setup();
    let names = [
        "Sunflower", "Peashooter", "Sunflower", "Wall-nut", "Chomper", "Squash", "Garlic",
        "Repeater", "Snow Pea", "Torchwood", "Tall-nut", "Jalapeno", "Spikeweed", "Peashooter",
    ];
    for (k, n) in names.iter().enumerate() {
        act(UiAction::ChooserPick(n.to_string()), &mut s);
        if k % 5 == 4 {
            act(UiAction::ChooserRemove(0), &mut s);
            act(UiAction::ChooserRemove(99), &mut s);
        }
        act(UiAction::ChooserPick(n.to_string()), &mut s);
        let picks = &s.0.chooser_picks;
        assert!(picks.len() <= 10);
        for i in 0..picks.len() {
            for j in i + 1..picks.len() {
                assert_ne!(picks[i], picks[j]);
            }
        }
    }
    assert_eq!(s.0.chooser_picks.len(), 10);
    assert!(!s.0.chooser_picks.contains(&"Peashooter".to_string()));
    s.0.unlocked_seed_names.push("Garlic".into());
    s.0.unlocked_seed_names.push("Wall-nut".into());
    act(UiAction::ConfirmSeedChooser, &mut s);
    assert_eq!(s.0.chooser_picks, vec!["Wall-nut".to_string(), "Garlic".to_string()]);
}
