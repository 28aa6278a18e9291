use rozvp::board::Board;
use rozvp::combat::{zombie_bite, BiteOutcome};
use rozvp::defs::seed_def;
use rozvp::specials::{release_crater_cell, Crater, Plant};
use rozvp::visuals::{cherry_flash, status_tint, zombie_look, StatusTint, ZombieLook};
use rozvp::zombie::{Zombie, ZombieKind};

fn bites_to_eat(name: &str) -> u32 {
    let mut z = Zombie::new(ZombieKind::Normal, 0);
    let mut p = Plant::from_seed(&seed_def(name).unwrap(), 0, 0);
    let mut bites = 0;
    let mut ticks = 0;
    loop {
        ticks += 1;
        assert!(ticks < 100_000);
        match zombie_bite(&mut z, &mut p, false, false, 1) {
            BiteOutcome::Bit { plant_destroyed } => {
                bites += 1;
                if plant_destroyed {
                    return bites;
                }
            }
            BiteOutcome::Chewing => {}
            other => panic!("unexpected {other:?}"),
        }
    }
}

#[test]
fn a_zombie_eats_a_peashooter_in_six_bites() {
    assert_eq!(bites_to_eat("Peashooter"), 6);
}

#[test]
fn a_zombie_eats_a_wall_nut_in_eighty_bites() {
    assert_eq!(bites_to_eat("Wall-nut"), 80);
}

#[test]
fn recharge_tiers_of_the_defensive_plants() {
    assert_eq!(seed_def("Wall-nut").unwrap().recharge_ticks, 3000);
    assert_eq!(seed_def("Cherry Bomb").unwrap().recharge_ticks, 5000);
    assert_eq!(seed_def("Peashooter").unwrap().recharge_ticks, 750);
}

#[test]
fn zombie_looks_follow_armor_and_status() {
    let mut cone = Zombie::new(ZombieKind::Conehead, 0);
    assert_eq!(zombie_look(&cone), ZombieLook::Cone);
    cone.take_damage(370);
    assert_eq!(zombie_look(&cone), ZombieLook::Bare);
    assert_eq!(zombie_look(&Zombie::new(ZombieKind::Buckethead, 0)), ZombieLook::Bucket);
    assert_eq!(zombie_look(&Zombie::new(ZombieKind::Flag, 0)), ZombieLook::Bare);
    assert_eq!(status_tint(true, true), StatusTint::Frozen);
    assert_eq!(status_tint(false, true), StatusTint::Chilled);
    assert_eq!(status_tint(false, false), StatusTint::Plain);
}

#[test]
fn cherry_flashes_in_its_last_forty_ticks() {
    assert!(!cherry_flash(41));
    assert!(!cherry_flash(120));
    assert!(cherry_flash(40));
    assert!(!cherry_flash(39));
    assert!(!cherry_flash(35));
    assert!(cherry_flash(34));
    assert!(cherry_flash(0));
    assert!(cherry_flash(-3));
}

#[test]
fn a_closed_crater_frees_only_its_own_cell() {
    let mut b = Board::new();
    let c = Crater::new(3, 1);
    b.set_cell(3, 1, Some(9));
    assert!(!release_crater_cell(&mut b, &c, 8));
    assert_eq!(b.cell(3, 1), Some(9));
    assert!(release_crater_cell(&mut b, &c, 9));
    assert_eq!(b.cell(3, 1), None);
}
