//! Adventure level progression, wave budgets and seed unlock gating.
//!
//! `adventure_level` is a 0-based index into the 1-x grid: 0 is level
//! "1-1", 1 is "1-2", 10 is "2-1".

use vstd::prelude::*;

use crate::board::Stage;
use crate::constants::LEVELS_PER_AREA;
use crate::defs::{name_cost, plant_name, seed_def, PlantKind};
use crate::text::{push_char, push_decimal, spec_decimal};
use crate::ui::{contains_name, names, PilotUi, SeedSlot, UiView};

verus! {

/// Label of an adventure level: area, a dash, stage within the area.
pub open spec fn spec_level_label(adventure_level: nat) -> Seq<char> {
    spec_decimal(adventure_level / 10 + 1) + seq!['-'] + spec_decimal(adventure_level % 10 + 1)
}

/// "1-1" style label of a 0-based adventure level.
pub fn level_label(adventure_level: u32) -> (r: String)
    ensures
        r@ == spec_level_label(adventure_level as nat),
{
    let area = adventure_level / LEVELS_PER_AREA + 1;
    let stage = adventure_level % LEVELS_PER_AREA + 1;
    let mut s = String::new();
    push_decimal(&mut s, area);
    push_char(&mut s, '-');
    push_decimal(&mut s, stage);
    s
}

/// Day for area 1, Night from area 2 on.
pub open spec fn spec_stage_for_level(adventure_level: nat) -> Stage {
    if adventure_level / 10 == 0 {
        Stage::Day
    } else {
        Stage::Night
    }
}

/// Stage of an adventure level.
pub fn stage_for_level(adventure_level: u32) -> (r: Stage)
    ensures
        r == spec_stage_for_level(adventure_level as nat),
{
    if adventure_level / LEVELS_PER_AREA == 0 {
        Stage::Day
    } else {
        Stage::Night
    }
}

/// The seeds a new profile starts with.
pub open spec fn spec_starting_seeds() -> Seq<Seq<char>> {
    seq!["Sunflower"@, "Peashooter"@]
}

/// The seeds a new profile starts with: Sunflower and Peashooter.
pub fn starting_unlocked_seeds() -> (r: Vec<String>)
    ensures
        names(r@) == spec_starting_seeds(),
{
    let mut v: Vec<String> = Vec::new();
    v.push("Sunflower".to_owned());
    v.push("Peashooter".to_owned());
    assert(names(v@) == spec_starting_seeds());
    v
}

/// Plant awarded for completing a 0-based level; the award order runs
/// through the implemented plants and then stops.
pub open spec fn spec_award(completed_level: nat) -> Option<PlantKind> {
    if completed_level == 0 {
        Some(PlantKind::WallNut)
    } else if completed_level == 1 {
        Some(PlantKind::CherryBomb)
    } else if completed_level == 2 {
        Some(PlantKind::PotatoMine)
    } else if completed_level == 3 {
        Some(PlantKind::SnowPea)
    } else if completed_level == 4 {
        Some(PlantKind::Chomper)
    } else if completed_level == 5 {
        Some(PlantKind::Repeater)
    } else if completed_level == 6 {
        Some(PlantKind::Squash)
    } else if completed_level == 7 {
        Some(PlantKind::Threepeater)
    } else if completed_level == 8 {
        Some(PlantKind::TallNut)
    } else if completed_level == 9 {
        Some(PlantKind::Garlic)
    } else if completed_level == 10 {
        Some(PlantKind::Spikeweed)
    } else if completed_level == 11 {
        Some(PlantKind::Torchwood)
    } else if completed_level == 12 {
        Some(PlantKind::HypnoShroom)
    } else if completed_level == 13 {
        Some(PlantKind::IceShroom)
    } else if completed_level == 14 {
        Some(PlantKind::DoomShroom)
    } else if completed_level == 15 {
        Some(PlantKind::Jalapeno)
    } else {
        None
    }
}

/// Name of the seed awarded for completing a level, if any.
pub fn award_for_completed_level(completed_level: u32) -> (r: Option<&'static str>)
    ensures
        r is Some == spec_award(completed_level as nat) is Some,
        r matches Some(s) ==> s@ == plant_name(spec_award(completed_level as nat)->0),
{
    match completed_level {
        0 => Some("Wall-nut"),
        1 => Some("Cherry Bomb"),
        2 => Some("Potato Mine"),
        3 => Some("Snow Pea"),
        4 => Some("Chomper"),
        5 => Some("Repeater"),
        6 => Some("Squash"),
        7 => Some("Threepeater"),
        8 => Some("Tall-nut"),
        9 => Some("Garlic"),
        10 => Some("Spikeweed"),
        11 => Some("Torchwood"),
        12 => Some("Hypno-shroom"),
        13 => Some("Ice-shroom"),
        14 => Some("Doom-shroom"),
        15 => Some("Jalapeno"),
        _ => None,
    }
}

/// Some level below 16 awards this plant.
pub open spec fn is_awarded(k: PlantKind) -> bool {
    exists|l: nat| l < 16 && #[trigger] spec_award(l) == Some(k)
}

/// Law: the award order never repeats a plant, never awards a starting
/// seed, and awards each of the other sixteen plants exactly at one level.
pub proof fn lemma_award_order(a: nat, b: nat)
    ensures
        spec_award(a) is Some && spec_award(b) is Some && a != b ==> spec_award(a)->0
            != spec_award(b)->0,
        spec_award(a) is Some ==> spec_award(a)->0 != PlantKind::Sunflower && spec_award(a)->0
            != PlantKind::Peashooter,
        spec_award(a) is Some <==> a < 16,
        forall|k: PlantKind|
            k != PlantKind::Sunflower && k != PlantKind::Peashooter ==> #[trigger] is_awarded(k),
{
    assert forall|k: PlantKind|
        k != PlantKind::Sunflower && k != PlantKind::Peashooter implies #[trigger] is_awarded(k) by {
        match k {
            PlantKind::WallNut => assert(spec_award(0) == Some(k)),
            PlantKind::CherryBomb => assert(spec_award(1) == Some(k)),
            PlantKind::PotatoMine => assert(spec_award(2) == Some(k)),
            PlantKind::SnowPea => assert(spec_award(3) == Some(k)),
            PlantKind::Chomper => assert(spec_award(4) == Some(k)),
            PlantKind::Repeater => assert(spec_award(5) == Some(k)),
            PlantKind::Squash => assert(spec_award(6) == Some(k)),
            PlantKind::Threepeater => assert(spec_award(7) == Some(k)),
            PlantKind::TallNut => assert(spec_award(8) == Some(k)),
            PlantKind::Garlic => assert(spec_award(9) == Some(k)),
            PlantKind::Spikeweed => assert(spec_award(10) == Some(k)),
            PlantKind::Torchwood => assert(spec_award(11) == Some(k)),
            PlantKind::HypnoShroom => assert(spec_award(12) == Some(k)),
            PlantKind::IceShroom => assert(spec_award(13) == Some(k)),
            PlantKind::DoomShroom => assert(spec_award(14) == Some(k)),
            PlantKind::Jalapeno => assert(spec_award(15) == Some(k)),
            _ => {},
        }
    }
}

/// Adds `seed` to the unlocked list unless it is already there.
pub fn ensure_seed_unlocked(ui: &mut PilotUi, seed: &str)
    ensures
        names(final(ui).unlocked_seed_names@) == if names(old(ui).unlocked_seed_names@).contains(
            seed@,
        ) {
            names(old(ui).unlocked_seed_names@)
        } else {
            names(old(ui).unlocked_seed_names@).push(seed@)
        },
        final(ui)@ == (UiView { unlocked: names(final(ui).unlocked_seed_names@), ..old(ui)@ }),
        final(ui).adventure_level == old(ui).adventure_level,
        final(ui).seed_bank@ == old(ui).seed_bank@,
        final(ui).level_name@ == old(ui).level_name@,
        final(ui).phase == old(ui).phase,
        final(ui).pending_award_seed == old(ui).pending_award_seed,
{
    if !contains_name(&ui.unlocked_seed_names, seed) {
        ui.unlocked_seed_names.push(seed.to_owned());
        assert(names(ui.unlocked_seed_names@) == names(old(ui).unlocked_seed_names@).push(seed@));
    }
}

/// Waves in a level: short early levels, a full flag cycle later in an area.
pub open spec fn spec_wave_count(adventure_level: nat) -> nat {
    let s = adventure_level % 10;
    if s == 0 {
        4
    } else if s == 1 {
        6
    } else if s == 2 {
        8
    } else {
        10
    }
}

/// How many waves before the level is cleared.
pub fn level_wave_count(adventure_level: u32) -> (r: u32)
    ensures
        r == spec_wave_count(adventure_level as nat),
{
    match adventure_level % LEVELS_PER_AREA {
        0 => 4,
        1 => 6,
        2 => 8,
        _ => 10,
    }
}

/// The generic early-Day ramp of wave budgets, repeating every ten waves.
pub open spec fn ramp_base(wave_index: nat) -> nat {
    let i = wave_index % 10;
    if i <= 2 {
        1
    } else if i <= 5 {
        2
    } else if i <= 8 {
        3
    } else {
        4
    }
}

/// Point budget of wave `w` (0-based) of a level: a huge final wave on
/// levels with six or more waves, the tiny 1-1 ramp (repeating every four
/// waves), otherwise the early ramp scaled up every three levels after 1-3.
pub open spec fn spec_wave_budget(adventure_level: nat, wave_index: nat) -> nat {
    let n = spec_wave_count(adventure_level);
    if wave_index == n - 1 && n >= 6 {
        if adventure_level == 0 {
            4
        } else {
            10
        }
    } else if adventure_level == 0 {
        let i = wave_index % 4;
        if i <= 1 {
            1
        } else if i == 2 {
            2
        } else {
            3
        }
    } else {
        let scale: nat = 1 + (if adventure_level >= 2 { (adventure_level - 2) as nat } else { 0 })
            / 3;
        ramp_base(wave_index) * scale
    }
}

/// Point budget for wave `wave_index` of this adventure level.
pub fn wave_point_budget(adventure_level: u32, wave_index: u32) -> (r: u32)
    requires
        spec_wave_budget(adventure_level as nat, wave_index as nat) <= u32::MAX,
    ensures
        r == spec_wave_budget(adventure_level as nat, wave_index as nat),
{
    let n = level_wave_count(adventure_level);
    let last = n - 1;
    if wave_index == last && n >= 6 {
        return if adventure_level == 0 { 4 } else { 10 };
    }
    if adventure_level == 0 {
        return match wave_index % 4 {
            0 => 1,
            1 => 1,
            2 => 2,
            _ => 3,
        };
    }
    let base: u32 = match wave_index % 10 {
        0 | 1 | 2 => 1,
        3 | 4 | 5 => 2,
        6 | 7 | 8 => 3,
        _ => 4,
    };
    let scale: u32 = 1 + (adventure_level.saturating_sub(2) / 3);
    assert(base * scale == spec_wave_budget(adventure_level as nat, wave_index as nat));
    base * scale
}

/// Law: how long levels are. Each area of ten levels opens with a level
/// of 4 waves, then 6, then 8, and every other level has 10; so a level
/// has 4 to 10 waves, and the first level of an area is short.
pub proof fn lemma_wave_counts(adventure_level: nat)
    ensures
        4 <= spec_wave_count(adventure_level) <= 10,
        adventure_level % 10 == 0 ==> spec_wave_count(adventure_level) == 4,
        adventure_level % 10 < 2 ==> spec_wave_count(adventure_level + 1) == spec_wave_count(
            adventure_level,
        ) + 2,
        adventure_level % 10 >= 3 ==> spec_wave_count(adventure_level) == 10,
{
    assert((adventure_level + 1) % 10 == adventure_level % 10 + 1 || adventure_level % 10 == 9);
}

/// Law: how wave budgets grow. On 1-1 the four waves ask 1, 1, 2 and 3
/// points. On every later level the first three waves ask the level's
/// base budget, the next three twice it, the next three three times it,
/// and a tenth wave four times it, except that the huge last wave of a
/// level of six waves or more asks 10 points (4 on 1-1). The base budget
/// is 1 on 1-2 to 1-5 and grows by one every three levels after that.
pub proof fn lemma_wave_budget_ramp(adventure_level: nat, w: nat)
    ensures
        spec_wave_budget(0, 0) == 1 && spec_wave_budget(0, 1) == 1 && spec_wave_budget(0, 2) == 2
            && spec_wave_budget(0, 3) == 3,
        spec_wave_is_huge(adventure_level, w) ==> spec_wave_budget(adventure_level, w) == (if adventure_level == 0 {
            4nat
        } else {
            10nat
        }),
        adventure_level >= 1 && w < 10 && !spec_wave_is_huge(adventure_level, w) ==> spec_wave_budget(
            adventure_level,
            w,
        ) == spec_wave_budget(adventure_level, 0) * (if w <= 2 {
            1nat
        } else if w <= 5 {
            2nat
        } else if w <= 8 {
            3nat
        } else {
            4nat
        }),
        1 <= adventure_level <= 4 ==> spec_wave_budget(adventure_level, 0) == 1,
        adventure_level >= 2 ==> spec_wave_budget(adventure_level + 3, 0) == spec_wave_budget(
            adventure_level,
            0,
        ) + 1,
{
    let n = spec_wave_count(adventure_level);
    assert(n >= 4);
    if adventure_level >= 2 {
        assert((adventure_level + 3 - 2) as nat / 3 == (adventure_level - 2) as nat / 3 + 1);
    }
}

/// The last wave of a level with six or more waves is a huge (flag) wave.
pub open spec fn spec_wave_is_huge(adventure_level: nat, wave_index: nat) -> bool {
    let n = spec_wave_count(adventure_level);
    n >= 6 && wave_index + 1 == n
}

/// Whether wave `wave_index` is the level's huge wave.
pub fn wave_is_huge(adventure_level: u32, wave_index: u32) -> (r: bool)
    ensures
        r == spec_wave_is_huge(adventure_level as nat, wave_index as nat),
{
    let n = level_wave_count(adventure_level);
    n >= 6 && wave_index == n - 1
}

/// Coneheads appear from 1-2 on.
pub fn level_allows_cone(adventure_level: u32) -> (r: bool)
    ensures
        r == (adventure_level >= 1),
{
    adventure_level >= 1
}

/// Bucketheads appear from 1-4 on.
pub fn level_allows_bucket(adventure_level: u32) -> (r: bool)
    ensures
        r == (adventure_level >= 3),
{
    adventure_level >= 3
}

/// Composition limits of one wave.
#[derive(Clone, Copy, Debug)]
pub struct WaveRecipe {
    pub budget: u32,
    pub max_cone: u32,
    pub max_bucket: u32,
    pub final_flag: bool,
    /// Huge wave: the flag leads, denser caps, advice line.
    pub huge: bool,
}

impl WaveRecipe {
    /// The recipe of wave `w` of a level.
    pub open spec fn is_recipe_for(self, adventure_level: nat, w: nat) -> bool {
        let huge = spec_wave_is_huge(adventure_level, w);
        &&& self.budget == spec_wave_budget(adventure_level, w)
        &&& self.max_cone == if adventure_level >= 1 {
            if huge {
                4nat
            } else {
                2nat
            }
        } else {
            0nat
        }
        &&& self.max_bucket == if adventure_level >= 3 {
            if huge {
                2nat
            } else {
                1nat
            }
        } else {
            0nat
        }
        &&& self.final_flag == huge
        &&& self.huge == huge
    }
}

/// Every wave budget of a level fits a `u32`.
pub open spec fn budgets_fit(adventure_level: nat) -> bool {
    forall|w: nat| w < spec_wave_count(adventure_level) ==> #[trigger] spec_wave_budget(adventure_level, w) <= u32::MAX
}

/// Recipes for every wave of the level, in order.
pub fn build_level_recipes(adventure_level: u32) -> (r: Vec<WaveRecipe>)
    requires
        budgets_fit(adventure_level as nat),
    ensures
        r@.len() == spec_wave_count(adventure_level as nat),
        forall|w: int| 0 <= w < r@.len() ==> #[trigger] r@[w].is_recipe_for(adventure_level as nat, w as nat),
{
    let n = level_wave_count(adventure_level);
    let mut out: Vec<WaveRecipe> = Vec::new();
    let mut w: u32 = 0;
    while w < n
        invariant
            w <= n,
            n == spec_wave_count(adventure_level as nat),
            budgets_fit(adventure_level as nat),
            out@.len() == w,
            forall|i: int| 0 <= i < w ==> #[trigger] out@[i].is_recipe_for(adventure_level as nat, i as nat),
        decreases n - w,
    {
        assert(spec_wave_budget(adventure_level as nat, w as nat) <= u32::MAX);
        let huge = wave_is_huge(adventure_level, w);
        let recipe = WaveRecipe {
            budget: wave_point_budget(adventure_level, w),
            max_cone: if level_allows_cone(adventure_level) {
                if huge {
                    4
                } else {
                    2
                }
            } else {
                0
            },
            max_bucket: if level_allows_bucket(adventure_level) {
                if huge {
                    2
                } else {
                    1
                }
            } else {
                0
            },
            final_flag: huge,
            huge,
        };
        out.push(recipe);
        w = w + 1;
    }
    out
}

/// Moves progress to the next level and relabels it.
pub fn advance_after_level_complete(ui: &mut PilotUi)
    requires
        old(ui).adventure_level < u32::MAX,
    ensures
        final(ui).adventure_level == old(ui).adventure_level + 1,
        final(ui).level_name@ == spec_level_label(final(ui).adventure_level as nat),
        final(ui)@ == (UiView {
            adventure_level: final(ui).adventure_level,
            level_name: final(ui).level_name@,
            ..old(ui)@
        }),
        final(ui).unlocked_seed_names@ == old(ui).unlocked_seed_names@,
        final(ui).seed_bank@ == old(ui).seed_bank@,
        final(ui).phase == old(ui).phase,
        final(ui).pending_award_seed == old(ui).pending_award_seed,
{
    ui.adventure_level = ui.adventure_level + 1;
    ui.level_name = level_label(ui.adventure_level);
}

/// Unlocked list after normalizing: the starting seeds when none are unlocked.
pub open spec fn normalized_unlocked(unlocked: Seq<Seq<char>>) -> Seq<Seq<char>> {
    if unlocked.len() == 0 {
        spec_starting_seeds()
    } else {
        unlocked
    }
}

/// Packets whose seed is in `unlocked`.
pub open spec fn slot_unlocked(unlocked: Seq<Seq<char>>) -> spec_fn(SeedSlot) -> bool {
    |s: SeedSlot| unlocked.contains(s.seed_name@)
}

/// Names in `unlocked`.
pub open spec fn name_unlocked(unlocked: Seq<Seq<char>>) -> spec_fn(Seq<char>) -> bool {
    |n: Seq<char>| unlocked.contains(n)
}

/// A fresh packet: full, affordable, unselected, priced from the packet table.
pub open spec fn is_fresh_slot(s: SeedSlot, name: Seq<char>) -> bool {
    &&& s.seed_name@ == name
    &&& s.cost == name_cost(name)
    &&& s.ready
    &&& s.affordable
    &&& !s.selected
}

/// Seeds that refill an emptied bank: the unlocked starting seeds, or,
/// when no starting seed is unlocked, the first two unlocked seeds (the
/// one, when only one is unlocked).
pub open spec fn spec_refill_names(unlocked: Seq<Seq<char>>) -> Seq<Seq<char>> {
    let starters = spec_starting_seeds().filter(name_unlocked(unlocked));
    if starters.len() > 0 {
        starters
    } else if unlocked.len() < 2 {
        unlocked
    } else {
        unlocked.take(2)
    }
}

/// The bank after normalizing against `unlocked`: the packets of unlocked
/// seeds, in order; when none is left, fresh packets of the refill seeds
/// (`spec_refill_names`).
pub open spec fn normalized_bank(old_bank: Seq<SeedSlot>, unlocked: Seq<Seq<char>>, new_bank: Seq<SeedSlot>) -> bool {
    let kept = old_bank.filter(slot_unlocked(unlocked));
    if kept.len() > 0 {
        new_bank == kept
    } else {
        let refill = spec_refill_names(unlocked);
        &&& new_bank.len() == refill.len()
        &&& forall|i: int| 0 <= i < refill.len() ==> is_fresh_slot(#[trigger] new_bank[i], refill[i])
    }
}

/// Keeps the label correct and the bank free of locked seeds, refilling an
/// emptied bank with the unlocked starting seeds, or with the first two
/// unlocked seeds when no starting seed is unlocked, so that a playable
/// bank always results.
#[verifier::loop_isolation(false)]
pub fn normalize_progress_ui(ui: &mut PilotUi)
    ensures
        names(final(ui).unlocked_seed_names@) == normalized_unlocked(
            names(old(ui).unlocked_seed_names@),
        ),
        final(ui).level_name@ == spec_level_label(old(ui).adventure_level as nat),
        final(ui).adventure_level == old(ui).adventure_level,
        final(ui)@ == (UiView {
            unlocked: names(final(ui).unlocked_seed_names@),
            level_name: final(ui).level_name@,
            seed_bank: final(ui).seed_bank@,
            ..old(ui)@
        }),
        normalized_bank(
            old(ui).seed_bank@,
            normalized_unlocked(names(old(ui).unlocked_seed_names@)),
            final(ui).seed_bank@,
        ),
        final(ui).phase == old(ui).phase,
        final(ui).pending_award_seed == old(ui).pending_award_seed,
        final(ui).chooser_picks@ == old(ui).chooser_picks@,
        final(ui).shovel_selected == old(ui).shovel_selected,
        final(ui).sun == old(ui).sun,
{
    if ui.unlocked_seed_names.len() == 0 {
        ui.unlocked_seed_names = starting_unlocked_seeds();
    }
    let ghost unlocked = names(ui.unlocked_seed_names@);
    ui.level_name = level_label(ui.adventure_level);

    let mut rest: Vec<SeedSlot> = Vec::new();
    std::mem::swap(&mut rest, &mut ui.seed_bank);
    let ghost orig = rest@;
    let mut kept: Vec<SeedSlot> = Vec::new();
    let ghost mut i: int = 0;
    while rest.len() > 0
        invariant
            0 <= i <= orig.len(),
            rest@ == orig.skip(i),
            unlocked == names(ui.unlocked_seed_names@),
            kept@ == orig.take(i).filter(slot_unlocked(unlocked)),
        decreases rest.len(),
    {
        reveal(Seq::filter);
        let slot = rest.remove(0);
        assert(slot == orig[i]);
        assert(orig.take(i + 1).drop_last() == orig.take(i));
        assert(orig.take(i + 1).last() == slot);
        if contains_name(&ui.unlocked_seed_names, slot.seed_name.as_str()) {
            kept.push(slot);
        }
        proof {
            i = i + 1;
        }
        assert(rest@ == orig.skip(i));
    }
    assert(orig.take(orig.len() as int) == orig);
    ui.seed_bank = kept;

    if ui.seed_bank.len() == 0 {
        let starting = starting_unlocked_seeds();
        let ghost starters = spec_starting_seeds().filter(name_unlocked(unlocked));
        let ghost mid = ui@;
        let mut j: usize = 0;
        while j < starting.len()
            invariant
                j <= starting.len(),
                names(starting@) == spec_starting_seeds(),
                ui.level_name@ == spec_level_label(old(ui).adventure_level as nat),
                ui.adventure_level == old(ui).adventure_level,
                ui.phase == old(ui).phase,
                ui.pending_award_seed == old(ui).pending_award_seed,
                ui.chooser_picks@ == old(ui).chooser_picks@,
                ui.shovel_selected == old(ui).shovel_selected,
                ui.sun == old(ui).sun,
                ui@ == (UiView { seed_bank: ui.seed_bank@, ..mid }),
                unlocked == names(ui.unlocked_seed_names@),
                ui.seed_bank@.len() == spec_starting_seeds().take(j as int).filter(
                    name_unlocked(unlocked),
                ).len(),
                forall|k: int|
                    0 <= k < ui.seed_bank@.len() ==> is_fresh_slot(
                        #[trigger] ui.seed_bank@[k],
                        spec_starting_seeds().take(j as int).filter(
                            name_unlocked(unlocked),
                        )[k],
                    ),
            decreases starting.len() - j,
        {
            reveal(Seq::filter);
            let name = starting[j].clone();
            assert(name@ == spec_starting_seeds()[j as int]) by {
                assert(names(starting@)[j as int] == starting@[j as int]@);
            }
            assert(spec_starting_seeds().take(j + 1).drop_last() == spec_starting_seeds().take(
                j as int,
            ));
            if contains_name(&ui.unlocked_seed_names, name.as_str()) {
                let cost = match seed_def(name.as_str()) {
                    Some(d) => d.cost,
                    None => 100,
                };
                ui.seed_bank.push(
                    SeedSlot { seed_name: name, cost, ready: true, affordable: true, selected: false },
                );
            }
            j = j + 1;
        }
        assert(spec_starting_seeds().take(2) == spec_starting_seeds());
        assert(starters == spec_starting_seeds().take(2).filter(name_unlocked(unlocked)));
        if ui.seed_bank.len() == 0 {
            let n: usize = if ui.unlocked_seed_names.len() < 2 {
                ui.unlocked_seed_names.len()
            } else {
                2
            };
            let mut j: usize = 0;
            while j < n
                invariant
                    j <= n,
                    n <= ui.unlocked_seed_names@.len(),
                    starters.len() == 0,
                    ui.level_name@ == spec_level_label(old(ui).adventure_level as nat),
                    ui.adventure_level == old(ui).adventure_level,
                    ui.phase == old(ui).phase,
                    ui.pending_award_seed == old(ui).pending_award_seed,
                    ui.chooser_picks@ == old(ui).chooser_picks@,
                    ui.shovel_selected == old(ui).shovel_selected,
                    ui.sun == old(ui).sun,
                    ui@ == (UiView { seed_bank: ui.seed_bank@, ..mid }),
                    unlocked == names(ui.unlocked_seed_names@),
                    ui.seed_bank@.len() == j,
                    forall|k: int| 0 <= k < j ==> is_fresh_slot(#[trigger] ui.seed_bank@[k], unlocked[k]),
                decreases n - j,
            {
                let name = ui.unlocked_seed_names[j].clone();
                assert(name@ == unlocked[j as int]) by {
                    assert(names(ui.unlocked_seed_names@)[j as int] == ui.unlocked_seed_names@[j as int]@);
                }
                let cost = match seed_def(name.as_str()) {
                    Some(d) => d.cost,
                    None => 100,
                };
                ui.seed_bank.push(
                    SeedSlot { seed_name: name, cost, ready: true, affordable: true, selected: false },
                );
                j = j + 1;
            }
            assert(unlocked.len() >= 2 ==> unlocked.take(2).len() == 2);
        }
    }
}


/// Law: a normalized bank holds only unlocked seeds.
pub proof fn lemma_normalized_bank_is_unlocked(
    old_bank: Seq<SeedSlot>,
    unlocked: Seq<Seq<char>>,
    new_bank: Seq<SeedSlot>,
)
    requires
        normalized_bank(old_bank, unlocked, new_bank),
    ensures
        forall|i: int| 0 <= i < new_bank.len() ==> unlocked.contains(#[trigger] new_bank[i].seed_name@),
{
    reveal(Seq::filter);
    let kept = old_bank.filter(slot_unlocked(unlocked));
    if kept.len() > 0 {
        assert forall|i: int| 0 <= i < new_bank.len() implies unlocked.contains(
            #[trigger] new_bank[i].seed_name@,
        ) by {
            old_bank.filter_lemma(slot_unlocked(unlocked));
            assert(slot_unlocked(unlocked)(kept[i]));
        }
    } else {
        let starters = spec_starting_seeds().filter(name_unlocked(unlocked));
        let refill = spec_refill_names(unlocked);
        assert forall|i: int| 0 <= i < new_bank.len() implies unlocked.contains(
            #[trigger] new_bank[i].seed_name@,
        ) by {
            assert(is_fresh_slot(new_bank[i], refill[i]));
            if starters.len() > 0 {
                spec_starting_seeds().filter_lemma(name_unlocked(unlocked));
                assert(name_unlocked(unlocked)(starters[i]));
            } else {
                assert(refill[i] == unlocked[i]);
            }
        }
    }
}

/// Law: normalizing against a non-empty unlock list (which the
/// normalized list always is) never leaves the bank empty.
pub proof fn lemma_normalized_bank_playable(
    old_bank: Seq<SeedSlot>,
    unlocked: Seq<Seq<char>>,
    new_bank: Seq<SeedSlot>,
)
    requires
        normalized_bank(old_bank, unlocked, new_bank),
        unlocked.len() > 0,
    ensures
        new_bank.len() > 0,
        normalized_unlocked(unlocked) == unlocked,
{
}

/// Law: the unlock list after normalizing is never empty.
pub proof fn lemma_normalized_unlocked_nonempty(unlocked: Seq<Seq<char>>)
    ensures
        normalized_unlocked(unlocked).len() > 0,
{
}

/// Law: every level of six waves or more ends in a huge wave, and no
/// other wave is huge.
pub proof fn lemma_long_levels_end_huge(adventure_level: nat, w: nat)
    ensures
        spec_wave_count(adventure_level) >= 6 ==> spec_wave_is_huge(
            adventure_level,
            (spec_wave_count(adventure_level) - 1) as nat,
        ),
        w + 1 < spec_wave_count(adventure_level) ==> !spec_wave_is_huge(adventure_level, w),
{
}

} // verus!
