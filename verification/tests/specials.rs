use rozvp::advice::{AdviceInputs, AdviceStage, AdviceState};
use rozvp::anim::{AnimState, ZombieAnim};
use rozvp::board::{Board, Stage};
use rozvp::combat::{doom_clear, fire_step, light_pea, PeaKind, PeaProjectile};
use rozvp::defs::{seed_def, seed_key, PlantKind};
use rozvp::specials::{
    attach_plant_state, ChomperState, CherryBombFuse, Crater, Plant, PlantState, PotatoMineState,
    SpikeweedState, SunProducer,
};
use rozvp::ui::PilotUi;
use rozvp::zombie::{Zombie, ZombieKind};

fn plant(name: &str) -> Plant {
    Plant::from_seed(&seed_def(name).unwrap(), 1, 2)
}

#[test]
fn fuses_mines_and_craters_count_down() {
    let mut f = CherryBombFuse::new();
    assert!(!f.step(119));
    assert!(f.step(1));
    let mut m = PotatoMineState::new();
    m.step(1499);
    assert!(!m.armed);
    m.step(1);
    assert!(m.armed);
    let mut c = Crater::new(4, 2);
    assert!(!c.step(17999));
    assert!(c.step(1));
}

#[test]
fn sunflowers_drop_sun_on_their_interval() {
    let mut s = SunProducer::new();
    assert!(!s.step(699));
    assert!(s.step(1));
    assert!(!s.step(2424));
    assert!(s.step(1));
}

#[test]
fn chomper_swallows_and_chews() {
    let mut c = ChomperState { chewing_timer: 0 };
    assert!(c.step(1));
    let mut z = Zombie::new(ZombieKind::Buckethead, 0);
    assert!(c.chomp(&mut z));
    assert!(!c.step(1));
    assert_eq!(c.chewing_timer, 4199);
}

#[test]
fn spikes_hit_each_zombie_once_per_interval() {
    let mut w = SpikeweedState { cooldowns: Vec::new() };
    assert_eq!(w.step(1, &vec![10, 11]), vec![10, 11]);
    assert_eq!(w.step(1, &vec![10, 12]), vec![12]);
    for _ in 0..98 {
        w.step(1, &vec![]);
    }
    assert_eq!(w.step(1, &vec![10]), vec![10]);
}

#[test]
fn planted_states_match_the_kind() {
    assert!(matches!(attach_plant_state(PlantKind::Sunflower), PlantState::Sun(_)));
    assert!(matches!(attach_plant_state(PlantKind::Peashooter), PlantState::Plain));
    assert!(matches!(attach_plant_state(PlantKind::DoomShroom), PlantState::Doom(_)));
}

#[test]
fn shooters_fire_only_at_targets_ahead() {
    let mut p = plant("Repeater");
    assert_eq!(fire_step(&mut p, 1, &vec![(2, false)]).len(), 0);
    let shots = fire_step(&mut p, 1, &vec![(2, true)]);
    assert_eq!(shots.len(), 2);
    assert!(shots[1].rear);
    assert_eq!(p.attack_cooldown_remaining, p.attack_cooldown_max);
    assert_eq!(fire_step(&mut p, 1, &vec![(2, true)]).len(), 0);
    let mut t = plant("Threepeater");
    let rows: Vec<usize> = fire_step(&mut t, 1, &vec![(3, true)]).iter().map(|s| s.pea.row).collect();
    assert_eq!(rows, vec![2, 1, 3]);
    let mut s = plant("Snow Pea");
    let shots = fire_step(&mut s, 1, &vec![(2, true)]);
    assert_eq!(shots[0].pea.kind, PeaKind::Snow);
}

#[test]
fn torchwood_lights_normal_peas_only() {
    let mut p = PeaProjectile { kind: PeaKind::Normal, row: 0, damage: 20 };
    light_pea(&mut p, true);
    assert_eq!((p.kind, p.damage), (PeaKind::Fire, 40));
    let mut s = PeaProjectile { kind: PeaKind::Snow, row: 0, damage: 20 };
    light_pea(&mut s, true);
    assert_eq!(s.kind, PeaKind::Snow);
}

#[test]
fn doom_clears_its_square_and_leaves_a_crater() {
    let mut b = Board::new();
    b.set_cell(0, 0, Some(1));
    b.set_cell(2, 2, Some(2));
    b.set_cell(4, 4, Some(3));
    b.set_cell(6, 0, Some(4));
    let taken = doom_clear(&mut b, 2, 2, 99);
    assert_eq!(taken, vec![1, 2, 3]);
    assert_eq!(b.cell(2, 2), Some(99));
    assert_eq!(b.cell(0, 0), None);
    assert_eq!(b.cell(6, 0), Some(4));
}

#[test]
fn advice_walks_its_chain() {
    let mut a = AdviceState::new();
    let mut ui = PilotUi::default();
    let inp = AdviceInputs {
        frame_ticks: 1,
        sun_collected_total: 0,
        has_sunflower: false,
        wave_started: false,
        wave_huge: false,
    };
    a.tick_advice(inp, &mut ui);
    assert_eq!(ui.advice.text, "advice-click-sun");
    assert!(ui.advice.visible);
    let huge = AdviceInputs { wave_huge: true, ..inp };
    a.tick_advice(huge, &mut ui);
    assert_eq!(a.stage, AdviceStage::HugeWave);
    assert!(a.huge_announced);
    let mut n = AdviceState::new();
    n.reset_advice(Stage::Night);
    assert_eq!(n.stage, AdviceStage::NightIntro);
    assert_eq!(n.hold_remaining, 400);
}

#[test]
fn seed_keys_slug_names() {
    assert_eq!(seed_key("Wall-nut"), "seed-wall-nut");
    assert_eq!(seed_key("Cherry Bomb"), "seed-cherry-bomb");
    assert_eq!(seed_key("Hypno-shroom"), "seed-hypno-shroom");
    assert!(seed_def("Nope").is_none());
    assert_eq!(seed_def("Tall-nut").unwrap().cost, 125);
}

#[test]
fn zombie_clips_loop_or_hold() {
    let mut a = ZombieAnim::new();
    assert_eq!(a.step(31), 1);
    a.sync(false, true);
    assert_eq!((a.state, a.frame), (AnimState::Eat, 0));
    assert_eq!(a.step(16), 31);
    a.sync(true, true);
    assert_eq!(a.state, AnimState::Fall);
    assert_eq!(a.step(100), 45 + 23);
}
