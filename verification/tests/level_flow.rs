use rozvp::board::Stage;
use rozvp::level_flow::{
    advance_after_level_complete, award_for_completed_level, build_level_recipes,
    ensure_seed_unlocked, level_allows_bucket, level_allows_cone, level_label, level_wave_count,
    normalize_progress_ui, stage_for_level, starting_unlocked_seeds, wave_is_huge,
    wave_point_budget,
};
use rozvp::ui::{PilotUi, SeedSlot};
use rozvp::waves::level_points_fit;

fn slot(name: &str) -> SeedSlot {
    SeedSlot {
        seed_name: name.to_string(),
        cost: 0,
        ready: false,
        affordable: false,
        selected: false,
    }
}

#[test]
fn labels_match_grid() {
    assert_eq!(level_label(0), "1-1");
    assert_eq!(level_label(4), "1-5");
    assert_eq!(level_label(9), "1-10");
    assert_eq!(level_label(10), "2-1");
}

#[test]
fn stage_for_level_maps_area_2_to_night() {
    assert_eq!(stage_for_level(0), Stage::Day);
    assert_eq!(stage_for_level(9), Stage::Day);
    assert_eq!(stage_for_level(10), Stage::Night);
    assert_eq!(stage_for_level(19), Stage::Night);
}

#[test]
fn award_order_covers_implemented_plants_then_stops() {
    assert_eq!(award_for_completed_level(0), Some("Wall-nut"));
    assert_eq!(award_for_completed_level(1), Some("Cherry Bomb"));
    assert_eq!(award_for_completed_level(2), Some("Potato Mine"));
    assert_eq!(award_for_completed_level(3), Some("Snow Pea"));
    assert_eq!(award_for_completed_level(4), Some("Chomper"));
    assert_eq!(award_for_completed_level(5), Some("Repeater"));
    assert_eq!(award_for_completed_level(6), Some("Squash"));
    assert_eq!(award_for_completed_level(7), Some("Threepeater"));
    assert_eq!(award_for_completed_level(8), Some("Tall-nut"));
    assert_eq!(award_for_completed_level(9), Some("Garlic"));
    assert_eq!(award_for_completed_level(10), Some("Spikeweed"));
    assert_eq!(award_for_completed_level(11), Some("Torchwood"));
    assert_eq!(award_for_completed_level(12), Some("Hypno-shroom"));
    assert_eq!(award_for_completed_level(13), Some("Ice-shroom"));
    assert_eq!(award_for_completed_level(14), Some("Doom-shroom"));
    assert_eq!(award_for_completed_level(15), Some("Jalapeno"));
    assert_eq!(award_for_completed_level(16), None);
}

#[test]
fn normalize_prunes_locked_bank_and_keeps_a_pair() {
    let mut ui = PilotUi::default();
    ui.unlocked_seed_names = vec!["Sunflower".into()];
    ui.seed_bank = vec![slot("Peashooter"), slot("Sunflower")];
    normalize_progress_ui(&mut ui);
    assert!(ui.seed_bank.iter().all(|s| s.seed_name == "Sunflower"));
}

#[test]
fn one_one_waves_are_short_normals_only() {
    assert_eq!(level_wave_count(0), 4);
    assert_eq!(
        (0..4).map(|w| wave_point_budget(0, w)).collect::<Vec<_>>(),
        vec![1, 1, 2, 3]
    );
    assert!(!level_allows_cone(0));
    assert!(!level_allows_bucket(0));
    let recipes = build_level_recipes(0);
    assert!(recipes
        .iter()
        .all(|r| !r.huge && r.max_cone == 0 && r.max_bucket == 0));
}

#[test]
fn longer_levels_ramp_and_end_in_a_huge_wave() {
    assert_eq!(level_wave_count(1), 6);
    assert!(!wave_is_huge(1, 0));
    assert!(wave_is_huge(1, 5));
    assert_eq!(wave_point_budget(1, 5), 10);
    assert!(level_allows_cone(1));
    assert!(!level_allows_bucket(1));
    assert_eq!(level_wave_count(3), 10);
    assert!(level_allows_bucket(3));
    assert!(wave_is_huge(3, 9));
}

#[test]
fn level_labels_match_bevy_build() {
    assert_eq!(level_label(0), "1-1");
    assert_eq!(level_label(9), "1-10");
    assert_eq!(level_label(10), "2-1");
}

#[test]
fn level_zero_wave_budgets() {
    let recipes = build_level_recipes(0);
    assert_eq!(recipes.len(), 4);
    assert!(recipes.iter().all(|r| !r.huge));
    assert_eq!(
        recipes.iter().map(|r| r.budget).collect::<Vec<_>>(),
        vec![1, 1, 2, 3]
    );
}

#[test]
fn starting_seeds_are_sunflower_and_peashooter() {
    assert_eq!(
        starting_unlocked_seeds(),
        vec!["Sunflower".to_string(), "Peashooter".to_string()]
    );
}

#[test]
fn labels_of_later_areas() {
    assert_eq!(level_label(19), "2-10");
    assert_eq!(level_label(123), "13-4");
}

#[test]
fn awards_never_repeat_a_plant() {
    let mut seen: Vec<&str> = Vec::new();
    for l in 0..40u32 {
        if let Some(s) = award_for_completed_level(l) {
            assert!(!seen.contains(&s));
            assert_ne!(s, "Sunflower");
            assert_ne!(s, "Peashooter");
            seen.push(s);
        }
    }
    assert_eq!(seen.len(), 16);
}

#[test]
fn ensure_seed_unlocked_adds_once() {
    let mut ui = PilotUi::default();
    ensure_seed_unlocked(&mut ui, "Garlic");
    ensure_seed_unlocked(&mut ui, "Garlic");
    assert_eq!(ui.unlocked_seed_names, vec!["Garlic".to_string()]);
}

#[test]
fn advance_relabels_the_level() {
    let mut ui = PilotUi::default();
    ui.adventure_level = 9;
    advance_after_level_complete(&mut ui);
    assert_eq!(ui.adventure_level, 10);
    assert_eq!(ui.level_name, "2-1");
}

#[test]
fn normalize_refills_an_emptied_bank_with_starters() {
    let mut ui = PilotUi::default();
    ui.adventure_level = 3;
    ui.seed_bank = vec![slot("Chomper")];
    normalize_progress_ui(&mut ui);
    assert_eq!(ui.unlocked_seed_names, starting_unlocked_seeds());
    assert_eq!(ui.level_name, "1-4");
    let names: Vec<&str> = ui.seed_bank.iter().map(|s| s.seed_name.as_str()).collect();
    assert_eq!(names, vec!["Sunflower", "Peashooter"]);
    assert_eq!(ui.seed_bank[0].cost, 50);
    assert_eq!(ui.seed_bank[1].cost, 100);
    assert!(ui.seed_bank.iter().all(|s| s.ready && s.affordable && !s.selected));
}

#[test]
fn wave_budgets_of_a_full_level() {
    assert_eq!(level_wave_count(10), 4);
    assert_eq!(level_wave_count(13), 10);
    for w in 0..10 {
        let b = wave_point_budget(13, w);
        assert!(b >= 1);
    }
    assert!(wave_is_huge(13, 9));
    assert!(!wave_is_huge(13, 8));
}

#[test]
fn every_adventure_level_fits_its_counters() {
    assert!(level_points_fit(0));
    assert!(level_points_fit(99));
    assert!(level_points_fit(1_000_000));
    assert!(!level_points_fit(u32::MAX));
}

#[test]
fn normalize_refills_from_unlocked_when_no_starter_is_unlocked() {
    let mut ui = PilotUi::default();
    ui.unlocked_seed_names = vec!["Wall-nut".to_string(), "Chomper".to_string(), "Squash".to_string()];
    ui.seed_bank = vec![slot("Sunflower")];
    normalize_progress_ui(&mut ui);
    let names: Vec<&str> = ui.seed_bank.iter().map(|s| s.seed_name.as_str()).collect();
    assert_eq!(names, vec!["Wall-nut", "Chomper"]);
    assert_eq!(ui.seed_bank[1].cost, 150);
    assert!(ui.seed_bank.iter().all(|s| s.ready && s.affordable && !s.selected));
}
