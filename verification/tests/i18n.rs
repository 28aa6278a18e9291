use rozvp::i18n::{short_name, short_seed, str_less, t, t_seed, Localizer, Translations};

const EN: &str = "app-title = RoZVP\nlets-rock = Let's Rock!\nseed-sunflower = Sunflower\nseed-sunflower-short = Sunf\nseed-wall-nut = Wall-nut\nseed-wall-nut-short = Wall\n";
const FR: &str = "app-title = RoZVP\nseed-sunflower = Tournesol\n";

fn localizer() -> Localizer {
    Localizer::new(vec![
        ("en".to_string(), EN.to_string()),
        ("fr".to_string(), FR.to_string()),
    ])
}

#[test]
fn english_spot_checks() {
    let loc = localizer();
    assert_eq!(loc.t("app-title"), "RoZVP");
    assert_eq!(loc.t("lets-rock"), "Let's Rock!");
}

#[test]
fn unknown_key_returns_key() {
    let loc = localizer();
    assert_eq!(loc.t("no-such-key"), "no-such-key");
}

#[test]
fn switch_rejects_unknown() {
    let mut loc = localizer();
    assert!(loc.set_language("fr"));
    assert_eq!(loc.language(), "fr");
    assert!(!loc.set_language("xx"));
    assert_eq!(loc.language(), "fr");
}

#[test]
fn seed_shorts_prefer_translator_labels() {
    let mut loc = localizer();
    assert_eq!(short_seed(&loc, "Sunflower"), "Sunf");
    assert_eq!(short_seed(&loc, "Wall-nut"), "Wall");
    assert!(loc.set_language("fr"));
    assert_eq!(short_seed(&loc, "Sunflower"), "Tour");
}

#[test]
fn french_falls_back_to_english_then_key() {
    let mut loc = localizer();
    assert!(loc.set_language("fr"));
    assert_eq!(loc.t("lets-rock"), "Let's Rock!");
    assert_eq!(loc.t("seed-sunflower"), "Tournesol");
    assert_eq!(loc.t_local("lets-rock"), None);
    assert_eq!(loc.t("nothing-here"), "nothing-here");
}

#[test]
fn broken_catalogs_are_skipped() {
    let loc = Localizer::new(vec![
        ("en".to_string(), EN.to_string()),
        ("de".to_string(), "this is { not fluent".to_string()),
        ("?? bad code".to_string(), EN.to_string()),
    ]);
    assert_eq!(loc.available(), vec!["en".to_string()]);
}

#[test]
fn available_is_sorted_without_repeats() {
    let loc = Localizer::new(vec![
        ("pt".to_string(), FR.to_string()),
        ("en".to_string(), EN.to_string()),
        ("fr".to_string(), FR.to_string()),
        ("en".to_string(), FR.to_string()),
        ("de".to_string(), FR.to_string()),
    ]);
    assert_eq!(loc.available(), vec!["de", "en", "fr", "pt"]);
    // The later English catalog replaces the earlier one.
    assert_eq!(loc.t("lets-rock"), "lets-rock");
    assert_eq!(loc.t("seed-sunflower"), "Tournesol");
}

#[test]
fn seed_names_fall_back_to_the_internal_name() {
    let loc = localizer();
    assert_eq!(t_seed(&loc, "Sunflower"), "Sunflower");
    assert_eq!(t_seed(&loc, "Chomper"), "Chomper");
    assert_eq!(short_seed(&loc, "Chomper"), "Chom");
}

#[test]
fn short_names_take_four_characters() {
    assert_eq!(short_name("Peashooter"), "Peas");
    assert_eq!(short_name("Pea"), "Pea");
    assert_eq!(short_name("Tournesol"), "Tour");
    assert_eq!(short_name(""), "");
}

#[test]
fn string_order_is_character_order() {
    assert!(str_less("de", "en"));
    assert!(!str_less("en", "de"));
    assert!(str_less("e", "en"));
    assert!(!str_less("en", "en"));
}

#[test]
fn table_lookups_fall_back() {
    let mut tr = Translations::new();
    tr.insert("resume".to_string(), "Reprendre".to_string());
    assert_eq!(t(&tr, "resume", "Resume"), "Reprendre");
    assert_eq!(t(&tr, "quit", "Quit"), "Quit");
}
