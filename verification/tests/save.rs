use rozvp::save::{
    apply_saved_progress, apply_to_ui, capture_from_ui, persist_progress, save_path,
    SaveProgress, SAVE_FILE_NAME, SAVE_VERSION,
};
use rozvp::ui::PilotUi;

#[test]
fn apply_and_capture_are_inverse() {
    let mut ui = PilotUi::default();
    let data = SaveProgress {
        adventure_level: 7,
        unlocked_seed_names: vec!["Snow Pea".to_string()],
        language: "de".to_string(),
        ..Default::default()
    };
    apply_to_ui(&data, &mut ui);
    assert_eq!(ui.level_name, "1-8");
    let back = capture_from_ui(&ui);
    assert_eq!(back.adventure_level, 7);
    assert_eq!(back.language, "de");
}

#[test]
fn capture_stamps_version_and_keeps_unlocks() {
    let mut ui = PilotUi::default();
    ui.adventure_level = 3;
    ui.unlocked_seed_names = vec!["Wall-nut".into(), "Cherry Bomb".into()];
    ui.language = "fr".into();
    let data = capture_from_ui(&ui);
    assert_eq!(data.version, SAVE_VERSION);
    assert_eq!(data.high_score, 0);
    assert_eq!(data.unlocked_seed_names, ui.unlocked_seed_names);
    assert_eq!(data.language, "fr");
}

#[test]
fn default_save_is_a_fresh_profile() {
    let d = SaveProgress::default();
    assert_eq!(d.version, 1);
    assert_eq!(d.adventure_level, 0);
    assert!(d.unlocked_seed_names.is_empty());
    assert_eq!(d.language, "en");
}

#[test]
fn persist_copies_level_and_unlocks_only() {
    let mut save = SaveProgress::default();
    save.language = "ja".into();
    let mut ui = PilotUi::default();
    ui.adventure_level = 5;
    ui.unlocked_seed_names = vec!["Squash".into()];
    persist_progress(&mut save, &ui);
    assert_eq!(save.adventure_level, 5);
    assert_eq!(save.unlocked_seed_names, vec!["Squash".to_string()]);
    assert_eq!(save.language, "ja");
}

#[test]
fn saved_progress_falls_back_to_starting_seeds() {
    let save = SaveProgress { adventure_level: 2, ..Default::default() };
    let mut ui = PilotUi::default();
    apply_saved_progress(&save, &mut ui);
    assert_eq!(ui.adventure_level, 2);
    assert_eq!(ui.unlocked_seed_names, vec!["Sunflower".to_string(), "Peashooter".to_string()]);
    assert_eq!(ui.level_name, "1-3");
    assert_eq!(ui.seed_bank.len(), 2);
}

#[test]
fn save_path_joins_the_file_name() {
    let p = save_path("/data/rozvp").unwrap();
    assert!(p.starts_with("/data/rozvp"));
    assert!(p.ends_with(SAVE_FILE_NAME));
    assert_ne!(p, "/data/rozvp");
}

#[test]
fn save_path_adds_one_separator_at_most() {
    let p = save_path("/data/rozvp/").unwrap();
    assert_eq!(p, "/data/rozvp/save.ron");
    assert_eq!(save_path("").unwrap(), "save.ron");
    let q = save_path("/data/rozvp").unwrap();
    assert_eq!(q.len(), "/data/rozvp".len() + 1 + SAVE_FILE_NAME.len());
}
