use rozvp::level_flow::WaveRecipe;
use rozvp::waves::{build_level_waves, build_wave_plan, plan_from_rolls};
use rozvp::zombie::{zombie_point_cost, ZombieKind};

fn recipe(budget: u32, max_cone: u32, max_bucket: u32, flag: bool) -> WaveRecipe {
    WaveRecipe { budget, max_cone, max_bucket, final_flag: flag, huge: flag }
}

#[test]
fn low_rolls_pick_a_bucket_then_cones_then_plain() {
    let r = recipe(8, 2, 1, false);
    let (plan, spent) = plan_from_rolls(&r, &vec![5, 10, 30, 99, 0]);
    assert_eq!(
        plan,
        vec![ZombieKind::Buckethead, ZombieKind::Conehead, ZombieKind::Conehead]
    );
    assert_eq!(spent, 8);
}

#[test]
fn caps_turn_low_rolls_into_plain_zombies() {
    let r = recipe(6, 1, 0, false);
    let (plan, spent) = plan_from_rolls(&r, &vec![0, 0, 0, 0, 0, 0]);
    assert_eq!(
        plan,
        vec![
            ZombieKind::Conehead,
            ZombieKind::Normal,
            ZombieKind::Normal,
            ZombieKind::Normal,
            ZombieKind::Normal
        ]
    );
    assert_eq!(spent, 6);
}

#[test]
fn a_bucket_needs_four_points_left() {
    let r = recipe(3, 2, 1, false);
    let (plan, _) = plan_from_rolls(&r, &vec![0, 0, 0]);
    assert_eq!(plan, vec![ZombieKind::Conehead, ZombieKind::Normal]);
}

#[test]
fn flag_waves_lead_with_the_flag_and_pay_its_point() {
    let r = recipe(2, 0, 0, true);
    let (plan, spent) = plan_from_rolls(&r, &vec![50, 50, 50]);
    assert_eq!(plan, vec![ZombieKind::Flag, ZombieKind::Normal, ZombieKind::Normal]);
    assert_eq!(spent, 3);
}

#[test]
fn too_few_rolls_leave_the_budget_part_spent() {
    let r = recipe(5, 0, 0, false);
    let (plan, spent) = plan_from_rolls(&r, &vec![70, 70]);
    assert_eq!(plan, vec![ZombieKind::Normal, ZombieKind::Normal]);
    assert_eq!(spent, 2);
}

#[test]
fn a_drawn_plan_spends_the_budget_within_the_caps() {
    let r = recipe(10, 4, 2, true);
    for _ in 0..50 {
        let (plan, spent) = build_wave_plan(r);
        assert_eq!(spent, 11);
        assert_eq!(plan[0], ZombieKind::Flag);
        assert_eq!(plan.iter().map(|k| zombie_point_cost(*k)).sum::<u32>(), 11);
        assert!(plan.iter().filter(|k| **k == ZombieKind::Conehead).count() <= 4);
        assert!(plan.iter().filter(|k| **k == ZombieKind::Buckethead).count() <= 2);
        assert!(plan[1..].iter().all(|k| *k != ZombieKind::Flag));
    }
}

#[test]
fn level_one_one_waves_are_plain() {
    let (plans, spent) = build_level_waves(0);
    assert_eq!(plans.len(), 4);
    assert_eq!(spent, 7);
    assert!(plans.iter().flatten().all(|k| *k == ZombieKind::Normal));
}
