use rozvp::board::{Board, Stage};
use rozvp::economy::{
    collect_sun, handle_board_click, select_seed, spawn_sky_sun, sun_expired, sync_ui,
    toggle_shovel, BoardClick, SeedBankRuntime, SlotPick, SunStats,
};
use rozvp::flow::{ticks_to_run, FlowControl, Overlay};
use rozvp::specials::PlantState;
use rozvp::ui::{PilotUi, SeedSlot};

fn slot(name: &str, cost: i32) -> SeedSlot {
    SeedSlot { seed_name: name.into(), cost, ready: true, affordable: true, selected: false }
}

fn game() -> (Board, SeedBankRuntime, PilotUi, FlowControl) {
    let mut ui = PilotUi::default();
    ui.seed_bank = vec![slot("Sunflower", 50), slot("Peashooter", 100)];
    (Board::new(), SeedBankRuntime::new(), ui, FlowControl::new())
}

#[test]
fn planting_pays_sun_and_starts_recharge() {
    let (mut b, mut rt, mut ui, mut flow) = game();
    assert_eq!(select_seed(&mut ui, &mut flow, 0), SlotPick::Selected);
    let r = handle_board_click(false, Some((2, 1)), 7, &mut b, &mut rt, &mut ui, &mut flow);
    match r {
        BoardClick::Planted(p, PlantState::Sun(s)) => {
            assert_eq!((p.col, p.row, p.hp), (2, 1, 300));
            assert_eq!(s.countdown, 700);
        }
        other => panic!("expected a planted sunflower, got {other:?}"),
    }
    assert_eq!(b.sun, 0);
    assert_eq!(b.cell(2, 1), Some(7));
    assert_eq!(rt.recharge_remaining, vec![750]);
    assert!(ui.seed_bank.iter().all(|s| !s.selected));
}

#[test]
fn recharging_taken_and_poor_clicks() {
    let (mut b, mut rt, mut ui, mut flow) = game();
    select_seed(&mut ui, &mut flow, 0);
    handle_board_click(false, Some((0, 0)), 1, &mut b, &mut rt, &mut ui, &mut flow);
    b.sun = 500;
    select_seed(&mut ui, &mut flow, 0);
    assert!(matches!(
        handle_board_click(false, Some((1, 0)), 2, &mut b, &mut rt, &mut ui, &mut flow),
        BoardClick::Rejected
    ));
    select_seed(&mut ui, &mut flow, 1);
    assert!(matches!(
        handle_board_click(false, Some((0, 0)), 3, &mut b, &mut rt, &mut ui, &mut flow),
        BoardClick::Rejected
    ));
    b.sun = 10;
    select_seed(&mut ui, &mut flow, 1);
    assert!(matches!(
        handle_board_click(false, Some((4, 4)), 4, &mut b, &mut rt, &mut ui, &mut flow),
        BoardClick::NotEnoughSun
    ));
    assert_eq!(flow.overlay, Overlay::NotEnoughSun);
    assert!(matches!(
        handle_board_click(false, Some((4, 4)), 5, &mut b, &mut rt, &mut ui, &mut flow),
        BoardClick::Ignored
    ));
}

#[test]
fn shovel_digs_and_clicks_off_the_lawn_are_ignored() {
    let (mut b, mut rt, mut ui, mut flow) = game();
    b.set_cell(3, 3, Some(42));
    toggle_shovel(&mut ui);
    assert!(ui.shovel_selected);
    assert!(matches!(
        handle_board_click(false, Some((3, 3)), 0, &mut b, &mut rt, &mut ui, &mut flow),
        BoardClick::Dug(Some(42))
    ));
    assert!(!ui.shovel_selected);
    assert_eq!(b.cell(3, 3), None);
    assert!(matches!(
        handle_board_click(false, Some((9, 0)), 0, &mut b, &mut rt, &mut ui, &mut flow),
        BoardClick::Ignored
    ));
    assert!(matches!(
        handle_board_click(true, Some((1, 1)), 0, &mut b, &mut rt, &mut ui, &mut flow),
        BoardClick::Ignored
    ));
    assert!(matches!(
        handle_board_click(false, None, 0, &mut b, &mut rt, &mut ui, &mut flow),
        BoardClick::Ignored
    ));
}

#[test]
fn sky_sun_falls_every_interval_by_day_only() {
    let mut b = Board::new();
    assert_eq!(b.sky_sun_timer, 425);
    assert_eq!(spawn_sky_sun(&mut b, 424), 0);
    assert_eq!(spawn_sky_sun(&mut b, 1), 1);
    assert_eq!(b.sky_sun_timer, 425);
    assert_eq!(spawn_sky_sun(&mut b, 425 * 3), 3);
    b.stage = Stage::Night;
    assert_eq!(spawn_sky_sun(&mut b, 1000), 0);
}

#[test]
fn suns_expire_and_collecting_counts() {
    assert!(!sun_expired(799, 0));
    assert!(sun_expired(800, 0));
    let mut b = Board::new();
    let mut stats = SunStats { collected_total: 0 };
    collect_sun(&mut b, &mut stats, 25);
    assert_eq!(b.sun, 75);
    assert_eq!(stats.collected_total, 1);
}

#[test]
fn recharge_runs_down_and_hud_syncs() {
    let mut rt = SeedBankRuntime::new();
    rt.recharge_remaining = vec![5, 0, 30];
    rt.tick_seed_recharge(10);
    assert_eq!(rt.recharge_remaining, vec![0, 0, 20]);
    assert_eq!(rt.remaining(7), 0);
    let mut b = Board::new();
    b.sun = 75;
    let mut ui = PilotUi::default();
    ui.seed_bank = vec![slot("Sunflower", 50), slot("Peashooter", 100), slot("Wall-nut", 50)];
    sync_ui(&b, &rt, &mut ui);
    assert_eq!(ui.sun, 75);
    assert!(ui.seed_bank[0].ready && ui.seed_bank[0].affordable);
    assert!(ui.seed_bank[1].ready && !ui.seed_bank[1].affordable);
    assert!(!ui.seed_bank[2].ready);
}

#[test]
fn frames_run_at_most_ten_ticks() {
    assert_eq!(ticks_to_run(3, false), 3);
    assert_eq!(ticks_to_run(25, false), 10);
    assert_eq!(ticks_to_run(25, true), 0);
}
