use rozvp::board::Board;
use rozvp::combat::{
    blast_hits, cherry_blast, doom_blast, garlic_new_row, hypno_bite, jalapeno_fire,
    lose_on_house_reach, pea_hits, removes_plant, row_fire_hits, spawn_mowers, spike_hit,
    squash_hit, zombie_bite, zombie_bite_on_board, BiteOutcome, Chilled, Dying, Frozen, PeaHit,
    PeaKind, PeaProjectile, ZombieStatus, zombie_walk_step,
};
use rozvp::constants::{CHERRY_BOMB_DAMAGE, PEA_DAMAGE, POINT_BUCKET, POINT_CONE, POINT_FLAG, POINT_NORMAL};
use rozvp::defs::{seed_def, PlantKind};
use rozvp::flow::{FlowControl, Overlay};
use rozvp::specials::Plant;
use rozvp::zombie::{zombie_point_cost, Zombie, ZombieKind};

fn peas_to_kill(kind: ZombieKind) -> u32 {
    let mut z = Zombie::new(kind, 0);
    let mut n = 0;
    loop {
        n += 1;
        assert!(n < 1000, "zombie never died");
        if z.take_damage(PEA_DAMAGE) {
            break;
        }
    }
    n
}

fn plant(kind: PlantKind) -> Plant {
    let name = match kind {
        PlantKind::Garlic => "Garlic",
        PlantKind::HypnoShroom => "Hypno-shroom",
        PlantKind::PotatoMine => "Potato Mine",
        _ => "Wall-nut",
    };
    Plant::from_seed(&seed_def(name).unwrap(), 3, 2)
}

#[test]
fn normal_takes_14_peas() {
    assert_eq!(peas_to_kill(ZombieKind::Normal), 14);
}

#[test]
fn conehead_takes_32_peas() {
    assert_eq!(peas_to_kill(ZombieKind::Conehead), 32);
}

#[test]
fn buckethead_takes_69_peas() {
    assert_eq!(peas_to_kill(ZombieKind::Buckethead), 69);
}

#[test]
fn wiki_point_costs() {
    assert_eq!(zombie_point_cost(ZombieKind::Normal), POINT_NORMAL);
    assert_eq!(zombie_point_cost(ZombieKind::Flag), POINT_FLAG);
    assert_eq!(zombie_point_cost(ZombieKind::Conehead), POINT_CONE);
    assert_eq!(zombie_point_cost(ZombieKind::Buckethead), POINT_BUCKET);
}

#[test]
fn cherry_bomb_kills_every_kind_in_one_blast() {
    for kind in [ZombieKind::Normal, ZombieKind::Conehead, ZombieKind::Buckethead] {
        let mut z = Zombie::new(kind, 0);
        assert!(z.take_damage(CHERRY_BOMB_DAMAGE));
    }
}

#[test]
fn armor_soaks_first_and_overflow_reaches_the_body() {
    let mut z = Zombie::new(ZombieKind::Conehead, 1);
    assert_eq!(z.armor_hp, 370);
    assert!(!z.take_damage(360));
    assert_eq!((z.armor_hp, z.body_hp), (10, 270));
    assert!(!z.take_damage(30));
    assert_eq!((z.armor_hp, z.body_hp), (0, 250));
    assert!(!z.is_dead());
}

#[test]
fn snow_pea_chills_a_survivor_and_a_lethal_pea_fells() {
    let mut z = Zombie::new(ZombieKind::Normal, 0);
    let snow = PeaProjectile { kind: PeaKind::Snow, row: 0, damage: 20 };
    assert_eq!(pea_hits(&mut z, &snow), PeaHit::Chilled(Chilled { remaining_ticks: 1000 }));
    assert_eq!(z.body_hp, 250);
    let fire = PeaProjectile { kind: PeaKind::Fire, row: 0, damage: 40 };
    assert_eq!(pea_hits(&mut z, &fire), PeaHit::Hurt);
    z.body_hp = 30;
    assert_eq!(pea_hits(&mut z, &fire), PeaHit::Killed(Dying { remaining_ticks: 80 }));
}

#[test]
fn blasts_reach_their_square_and_spare_hypnotized() {
    let mut z = Zombie::new(ZombieKind::Normal, 2);
    assert!(!blast_hits(&mut z, Some((6, 2)), 4, 2, 1, 1800, false));
    assert_eq!(z.body_hp, 270);
    assert!(blast_hits(&mut z, Some((5, 3)), 4, 2, 1, 1800, false));
    let mut h = Zombie::new(ZombieKind::Normal, 2);
    h.hypnotized = true;
    assert!(!blast_hits(&mut h, Some((4, 2)), 4, 2, 2, 9000, true));
    assert!(!blast_hits(&mut h, None, 4, 2, 2, 9000, false));
    let mut r = Zombie::new(ZombieKind::Buckethead, 3);
    assert!(row_fire_hits(&mut r, 3, 1800));
    let mut other = Zombie::new(ZombieKind::Normal, 1);
    assert!(!row_fire_hits(&mut other, 3, 1800));
}

#[test]
fn garlic_diverts_to_a_neighbouring_lane() {
    assert_eq!(garlic_new_row(0, true), 1);
    assert_eq!(garlic_new_row(0, false), 1);
    assert_eq!(garlic_new_row(2, true), 1);
    assert_eq!(garlic_new_row(2, false), 3);
    assert_eq!(garlic_new_row(4, false), 3);
    let mut z = Zombie::new(ZombieKind::Normal, 2);
    let mut g = plant(PlantKind::Garlic);
    match zombie_bite(&mut z, &mut g, false, false, 1) {
        BiteOutcome::Diverted { to_row, plant_destroyed } => {
            assert!(to_row == 1 || to_row == 3);
            assert_eq!(z.row, to_row);
            assert!(!plant_destroyed);
        }
        other => panic!("expected a diversion, got {other:?}"),
    }
    assert_eq!(g.hp, 350);
    assert_eq!(z.eat_cooldown_remaining, 50);
}

#[test]
fn bites_hypnotize_blast_and_chew() {
    let mut z = Zombie::new(ZombieKind::Normal, 2);
    let mut h = plant(PlantKind::HypnoShroom);
    assert_eq!(zombie_bite(&mut z, &mut h, false, false, 1), BiteOutcome::Hypnotized);
    assert!(z.hypnotized);
    let mut z2 = Zombie::new(ZombieKind::Normal, 2);
    let mut mine = plant(PlantKind::PotatoMine);
    assert_eq!(zombie_bite(&mut z2, &mut mine, true, false, 1), BiteOutcome::MineBlast { killed: true });
    let mut z3 = Zombie::new(ZombieKind::Normal, 2);
    let mut nut = plant(PlantKind::WallNut);
    assert_eq!(zombie_bite(&mut z3, &mut nut, false, true, 1), BiteOutcome::Bit { plant_destroyed: false });
    assert_eq!(z3.eat_cooldown_remaining, 100);
    assert_eq!(nut.hp, 3950);
    assert_eq!(zombie_bite(&mut z3, &mut nut, false, true, 1), BiteOutcome::Chewing);
    assert_eq!(z3.eat_cooldown_remaining, 99);
}

#[test]
fn hypnotized_brawl_bites_on_cooldown() {
    let mut a = Zombie::new(ZombieKind::Normal, 1);
    let mut v = Zombie::new(ZombieKind::Normal, 1);
    assert!(!hypno_bite(&mut a, &mut v, 1));
    assert_eq!(v.body_hp, 220);
    assert_eq!(a.eat_cooldown_remaining, 50);
    assert!(!hypno_bite(&mut a, &mut v, 1));
    assert_eq!(v.body_hp, 220);
}

#[test]
fn status_chill_runs_out_and_freeze_thaws_into_chill() {
    let mut s = ZombieStatus::new();
    s.chilled = Some(Chilled { remaining_ticks: 2 });
    let t = s.tick(1);
    assert!(t.chilled_now && t.acts);
    let t = s.tick(1);
    assert!(!t.chilled_now);
    assert_eq!(s.chilled, None);
    s.freeze(false);
    assert_eq!(s.frozen, Some(Frozen { remaining_ticks: 400, chill_after_ticks: 1000 }));
    let t = s.tick(399);
    assert!(!t.acts);
    let t = s.tick(1);
    assert!(t.acts);
    assert_eq!(s.frozen, None);
    assert_eq!(s.chilled, Some(Chilled { remaining_ticks: 1000 }));
}

#[test]
fn an_unguarded_lane_loses_the_game() {
    let mut flow = FlowControl::new();
    assert!(!lose_on_house_reach(&mut flow, &vec![2], &vec![0, 1, 2, 3, 4]));
    assert_eq!(flow.overlay, Overlay::Clear);
    assert!(lose_on_house_reach(&mut flow, &vec![2], &vec![0, 1, 3]));
    assert_eq!(flow.overlay, Overlay::GameOver);
    assert!(flow.paused);
    assert!(!lose_on_house_reach(&mut flow, &vec![2], &vec![]));
}

#[test]
fn one_mower_per_lane() {
    let m = spawn_mowers();
    assert_eq!(m.len(), 5);
    assert!(m.iter().enumerate().all(|(i, x)| x.row == i && !x.active));
}

#[test]
fn corpses_fall_for_eighty_ticks() {
    let mut d = Dying::new();
    assert!(!d.step(79));
    assert!(d.step(1));
}

#[test]
fn walking_resets_the_bite_and_chill_halves_the_pace() {
    let mut z = Zombie::new(ZombieKind::Normal, 0);
    z.eat_cooldown_remaining = 30;
    assert_eq!(zombie_walk_step(&mut z, false), 100);
    assert_eq!(z.eat_cooldown_remaining, 0);
    assert_eq!(zombie_walk_step(&mut z, true), 50);
}

fn lawn_with(col: usize, row: usize, id: u64) -> Board {
    let mut b = Board::new();
    b.set_cell(col, row, Some(id));
    b
}

#[test]
fn a_plant_eaten_to_zero_leaves_its_cell() {
    let mut board = lawn_with(3, 2, 7);
    let mut pea = Plant::from_seed(&seed_def("Peashooter").unwrap(), 3, 2);
    let mut z = Zombie::new(ZombieKind::Normal, 2);
    for bite in 1..=5 {
        let out = zombie_bite_on_board(&mut board, &mut z, &mut pea, false, false, 50);
        assert_eq!(out, BiteOutcome::Bit { plant_destroyed: false }, "bite {bite}");
        assert_eq!(board.cell(3, 2), Some(7));
    }
    let out = zombie_bite_on_board(&mut board, &mut z, &mut pea, false, false, 50);
    assert_eq!(out, BiteOutcome::Bit { plant_destroyed: true });
    assert!(pea.hp <= 0);
    assert_eq!(board.cell(3, 2), None);
}

#[test]
fn chewing_leaves_the_cell_alone() {
    let mut board = lawn_with(3, 2, 7);
    let mut nut = plant(PlantKind::WallNut);
    let mut z = Zombie::new(ZombieKind::Normal, 2);
    z.eat_cooldown_remaining = 30;
    assert_eq!(
        zombie_bite_on_board(&mut board, &mut z, &mut nut, false, false, 1),
        BiteOutcome::Chewing
    );
    assert_eq!(board.cell(3, 2), Some(7));
    assert!(!removes_plant(BiteOutcome::Chewing));
}

#[test]
fn a_blown_mine_and_an_eaten_hypno_shroom_leave_their_cells() {
    let mut board = lawn_with(3, 2, 9);
    let mut mine = plant(PlantKind::PotatoMine);
    let mut z = Zombie::new(ZombieKind::Conehead, 2);
    assert_eq!(
        zombie_bite_on_board(&mut board, &mut z, &mut mine, true, false, 1),
        BiteOutcome::MineBlast { killed: true }
    );
    assert_eq!(board.cell(3, 2), None);
    let mut board = lawn_with(3, 2, 11);
    let mut hypno = plant(PlantKind::HypnoShroom);
    let mut z = Zombie::new(ZombieKind::Normal, 2);
    assert_eq!(
        zombie_bite_on_board(&mut board, &mut z, &mut hypno, false, false, 1),
        BiteOutcome::Hypnotized
    );
    assert_eq!(board.cell(3, 2), None);
    assert!(z.hypnotized);
}

#[test]
fn cherry_blast_reaches_one_cell_and_spares_no_one() {
    let mut near = Zombie::new(ZombieKind::Buckethead, 2);
    near.hypnotized = true;
    assert!(cherry_blast(&mut near, Some((5, 3)), 4, 2));
    let mut far = Zombie::new(ZombieKind::Normal, 2);
    assert!(!cherry_blast(&mut far, Some((6, 2)), 4, 2));
    assert_eq!(far.body_hp, Zombie::new(ZombieKind::Normal, 2).body_hp);
    let mut off = Zombie::new(ZombieKind::Normal, 2);
    assert!(!cherry_blast(&mut off, None, 4, 2));
}

#[test]
fn doom_blast_reaches_two_cells_and_spares_the_hypnotized() {
    let mut z = Zombie::new(ZombieKind::Buckethead, 0);
    assert!(doom_blast(&mut z, Some((6, 0)), 4, 2));
    let mut out_of_reach = Zombie::new(ZombieKind::Normal, 2);
    assert!(!doom_blast(&mut out_of_reach, Some((7, 2)), 4, 2));
    let mut friend = Zombie::new(ZombieKind::Normal, 2);
    friend.hypnotized = true;
    assert!(!doom_blast(&mut friend, Some((4, 2)), 4, 2));
    assert!(friend.body_hp > 0);
}

#[test]
fn jalapeno_burns_its_lane_only() {
    let mut z = Zombie::new(ZombieKind::Buckethead, 3);
    assert!(jalapeno_fire(&mut z, 3));
    let mut other = Zombie::new(ZombieKind::Normal, 2);
    assert!(!jalapeno_fire(&mut other, 3));
    assert_eq!(other.body_hp, 270);
}

#[test]
fn spikes_prick_for_twenty() {
    let mut z = Zombie::new(ZombieKind::Conehead, 1);
    let armor = z.armor_hp;
    assert!(!spike_hit(&mut z));
    assert_eq!(z.armor_hp, armor - 20);
}

#[test]
fn a_squash_that_kills_is_spent() {
    let squash = Plant::from_seed(&seed_def("Squash").unwrap(), 4, 1);
    let mut board = lawn_with(4, 1, 3);
    let mut z = Zombie::new(ZombieKind::Buckethead, 1);
    assert!(squash_hit(&mut board, &squash, &mut z));
    assert_eq!(board.cell(4, 1), None);
    let mut board = lawn_with(4, 1, 3);
    let mut tough = Zombie::new(ZombieKind::Normal, 1);
    tough.body_hp = 5000;
    assert!(!squash_hit(&mut board, &squash, &mut tough));
    assert_eq!(tough.body_hp, 3200);
    assert_eq!(board.cell(4, 1), Some(3));
}

#[test]
fn without_armor_the_whole_hit_comes_off_the_body() {
    let mut z = Zombie::new(ZombieKind::Normal, 0);
    z.armor_hp = -10;
    z.body_hp = 100;
    assert!(!z.take_damage(30));
    assert_eq!(z.armor_hp, -10);
    assert_eq!(z.body_hp, 70);
    let mut cone = Zombie::new(ZombieKind::Conehead, 0);
    assert!(!cone.take_damage(400));
    assert_eq!(cone.armor_hp, 0);
    assert_eq!(cone.body_hp, 240);
}
