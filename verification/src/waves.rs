//! Wave director: point-budget wave composition, the countdown before the
//! first wave, staggered spawning, inter-wave gaps and level completion.

use vstd::prelude::*;

use crate::constants::{
    FIRST_WAVE_DELAY_TICKS, INTER_WAVE_DELAY_TICKS, LAWN_ROWS, POINT_BUCKET, POINT_CONE,
    POINT_NORMAL, SPAWN_STAGGER_TICKS,
};
use crate::flow::{FlowControl, Overlay};
use crate::level_flow::{
    build_level_recipes, budgets_fit, level_wave_count, spec_wave_budget, spec_wave_count,
    spec_wave_is_huge, wave_is_huge, WaveRecipe,
};
use crate::rng::random_below;
use crate::ui::{PilotUi, UiView};
use crate::zombie::{spec_armor_of, spec_point_cost, zombie_point_cost, Zombie, ZombieKind};

verus! {

/// Points a wave plan spends.
pub open spec fn plan_points(s: Seq<ZombieKind>) -> nat
    decreases s.len(),
{
    if s.len() == 0 {
        0
    } else {
        plan_points(s.drop_last()) + spec_point_cost(s.last())
    }
}

/// How many zombies of kind `k` a plan holds.
pub open spec fn count_of(s: Seq<ZombieKind>, k: ZombieKind) -> nat
    decreases s.len(),
{
    if s.len() == 0 {
        0
    } else {
        count_of(s.drop_last(), k) + if s.last() == k {
            1nat
        } else {
            0nat
        }
    }
}

/// Extra point a flag-led wave spends on its flag zombie.
pub open spec fn flag_point(recipe: WaveRecipe) -> nat {
    if recipe.final_flag {
        POINT_FLAG_NAT()
    } else {
        0
    }
}

/// The flag zombie's point cost.
pub open spec fn POINT_FLAG_NAT() -> nat {
    1
}

/// What every wave plan built for `recipe` satisfies, whatever the rolls:
/// the whole budget is spent (plus the flag's point on flag waves), the
/// flag leads flag waves and appears nowhere else, and the cone and bucket
/// caps hold.
pub open spec fn plan_fits_recipe(plan: Seq<ZombieKind>, spent: nat, recipe: WaveRecipe) -> bool {
    let lead: int = if recipe.final_flag {
        1
    } else {
        0
    };
    &&& spent == recipe.budget + flag_point(recipe)
    &&& plan_points(plan) == spent
    &&& recipe.final_flag ==> plan.len() > 0 && plan[0] == ZombieKind::Flag
    &&& forall|i: int| lead <= i < plan.len() ==> plan[i] != ZombieKind::Flag
    &&& count_of(plan, ZombieKind::Conehead) <= recipe.max_cone
    &&& count_of(plan, ZombieKind::Buckethead) <= recipe.max_bucket
}

/// Kind chosen for one pick of a wave: a bucket on rolls below 12 when one
/// is allowed and affordable, else a cone on rolls below 40 when allowed
/// and affordable, else a plain zombie.
pub open spec fn spec_pick(
    roll: nat,
    remaining: nat,
    cone_used: nat,
    bucket_used: nat,
    recipe: WaveRecipe,
) -> ZombieKind {
    let can_bucket = bucket_used < recipe.max_bucket && remaining >= POINT_BUCKET;
    let can_cone = cone_used < recipe.max_cone && remaining >= POINT_CONE;
    if can_bucket && roll < 12 {
        ZombieKind::Buckethead
    } else if can_cone && roll < 40 {
        ZombieKind::Conehead
    } else {
        ZombieKind::Normal
    }
}

/// One weighted, budget-aware pick.
pub fn pick_wave_kind(
    roll: u32,
    remaining: u32,
    cone_used: u32,
    bucket_used: u32,
    recipe: &WaveRecipe,
) -> (k: ZombieKind)
    ensures
        k == spec_pick(roll as nat, remaining as nat, cone_used as nat, bucket_used as nat, *recipe),
{
    let can_bucket = bucket_used < recipe.max_bucket && remaining >= POINT_BUCKET;
    let can_cone = cone_used < recipe.max_cone && remaining >= POINT_CONE;
    if can_bucket && roll < 12 {
        ZombieKind::Buckethead
    } else if can_cone && roll < 40 {
        ZombieKind::Conehead
    } else {
        ZombieKind::Normal
    }
}

/// Law: how a roll picks a kind. Rolls below 12 bring a bucket when one
/// is still allowed and its points remain; rolls below 40 otherwise bring
/// a cone when one is allowed and affordable; everything else, and every
/// roll from 40 up, brings a plain zombie. So a roll of 12 or more never
/// brings a bucket, a pick never passes its cap, never costs more than
/// remains (while a plain zombie's point remains), and is never a flag.
pub proof fn lemma_pick_rules(
    roll: nat,
    remaining: nat,
    cone_used: nat,
    bucket_used: nat,
    recipe: WaveRecipe,
)
    ensures
        ({
            let k = spec_pick(roll, remaining, cone_used, bucket_used, recipe);
            let bucket_ok = bucket_used < recipe.max_bucket && remaining >= POINT_BUCKET;
            let cone_ok = cone_used < recipe.max_cone && remaining >= POINT_CONE;
            &&& k != ZombieKind::Flag
            &&& roll < 12 && bucket_ok ==> k == ZombieKind::Buckethead
            &&& roll >= 12 ==> k != ZombieKind::Buckethead
            &&& roll < 40 && cone_ok && !(roll < 12 && bucket_ok) ==> k == ZombieKind::Conehead
            &&& roll >= 40 ==> k == ZombieKind::Normal
            &&& k == ZombieKind::Buckethead ==> bucket_ok
            &&& k == ZombieKind::Conehead ==> cone_ok
            &&& remaining >= POINT_NORMAL ==> spec_point_cost(k) <= remaining
        }),
{
}

proof fn lemma_push_points(s: Seq<ZombieKind>, k: ZombieKind)
    ensures
        plan_points(s.push(k)) == plan_points(s) + spec_point_cost(k),
        forall|j: ZombieKind| #[trigger] count_of(s.push(k), j) == count_of(s, j) + if k == j {
            1nat
        } else {
            0nat
        },
{
    assert(s.push(k).drop_last() == s);
}

/// Every zombie costs at least one point, so a plan is never longer than
/// the points it spends.
pub proof fn lemma_plan_len_le_points(s: Seq<ZombieKind>)
    ensures
        s.len() <= plan_points(s),
    decreases s.len(),
{
    if s.len() > 0 {
        lemma_plan_len_le_points(s.drop_last());
    }
}

/// Where a wave's picks stand: the kinds picked so far, the points left,
/// the cones and the buckets picked.
pub type PickState = (Seq<ZombieKind>, nat, nat, nat);

/// One roll's pick: once fewer points remain than a plain zombie costs,
/// the roll goes unused; otherwise the kind of `spec_pick` is picked,
/// paid for and counted against its cap.
pub open spec fn pick_step(recipe: WaveRecipe, st: PickState, roll: u32) -> PickState {
    let (picks, remaining, cones, buckets) = st;
    if remaining < POINT_NORMAL {
        st
    } else {
        let kind = spec_pick(roll as nat, remaining, cones, buckets, recipe);
        (
            picks.push(kind),
            (remaining - spec_point_cost(kind)) as nat,
            if kind == ZombieKind::Conehead {
                cones + 1
            } else {
                cones
            },
            if kind == ZombieKind::Buckethead {
                buckets + 1
            } else {
                buckets
            },
        )
    }
}

/// The picks of a wave after `rolls`, taken in order from the recipe's
/// full budget.
pub open spec fn picks_after(recipe: WaveRecipe, rolls: Seq<u32>) -> PickState
    decreases rolls.len(),
{
    if rolls.len() == 0 {
        (Seq::empty(), recipe.budget as nat, 0, 0)
    } else {
        pick_step(recipe, picks_after(recipe, rolls.drop_last()), rolls.last())
    }
}

/// The flag that leads a flag wave (nothing on other waves).
pub open spec fn plan_lead(recipe: WaveRecipe) -> Seq<ZombieKind> {
    if recipe.final_flag {
        seq![ZombieKind::Flag]
    } else {
        Seq::empty()
    }
}

/// The wave plan that `rolls` give: the lead, then the picks.
pub open spec fn spec_plan_from_rolls(recipe: WaveRecipe, rolls: Seq<u32>) -> Seq<ZombieKind> {
    plan_lead(recipe) + picks_after(recipe, rolls).0
}

/// The rolls spend the whole budget: fewer points are left than a plain
/// zombie costs.
pub open spec fn rolls_suffice(recipe: WaveRecipe, rolls: Seq<u32>) -> bool {
    picks_after(recipe, rolls).1 < POINT_NORMAL
}

/// Every roll lies below 100.
pub open spec fn rolls_in_range(rolls: Seq<u32>) -> bool {
    forall|i: int| 0 <= i < rolls.len() ==> #[trigger] rolls[i] < 100
}

/// A plan drawn for `recipe`: what some rolls below 100, enough to spend
/// the budget, give.
pub open spec fn is_drawn_plan(plan: Seq<ZombieKind>, recipe: WaveRecipe) -> bool {
    exists|rolls: Seq<u32>|
        rolls_in_range(rolls) && rolls_suffice(recipe, rolls) && plan == #[trigger] spec_plan_from_rolls(
            recipe,
            rolls,
        )
}

/// Once the budget is spent, later rolls change nothing.
proof fn lemma_spent_rolls_unused(recipe: WaveRecipe, rolls: Seq<u32>, i: int, j: int)
    requires
        0 <= i <= j <= rolls.len(),
        picks_after(recipe, rolls.take(i)).1 < POINT_NORMAL,
    ensures
        picks_after(recipe, rolls.take(j)) == picks_after(recipe, rolls.take(i)),
    decreases j - i,
{
    if j > i {
        lemma_spent_rolls_unused(recipe, rolls, i, j - 1);
        assert(rolls.take(j).drop_last() == rolls.take(j - 1));
    }
}

/// A wave plan being built.
struct PlanDraft {
    plan: Vec<ZombieKind>,
    remaining: u32,
    cone_used: u32,
    bucket_used: u32,
    spent: u32,
}

impl PlanDraft {
    /// The draft stands where `rolls` leave a plan for `recipe`: its plan
    /// is the lead and the picks, its counters those of the picks, and the
    /// points spent and left make up the budget and the flag.
    spec fn matches(&self, recipe: WaveRecipe, rolls: Seq<u32>) -> bool {
        let st = picks_after(recipe, rolls);
        let lead: int = if recipe.final_flag {
            1
        } else {
            0
        };
        &&& self.plan@ == plan_lead(recipe) + st.0
        &&& self.remaining == st.1
        &&& self.cone_used == st.2
        &&& self.bucket_used == st.3
        &&& self.spent + self.remaining == recipe.budget + flag_point(recipe)
        &&& recipe.budget + flag_point(recipe) <= u32::MAX
        &&& plan_points(self.plan@) == self.spent
        &&& (recipe.final_flag ==> self.plan@.len() > 0 && self.plan@[0] == ZombieKind::Flag)
        &&& lead <= self.plan@.len()
        &&& forall|i: int| lead <= i < self.plan@.len() ==> self.plan@[i] != ZombieKind::Flag
        &&& self.cone_used == count_of(self.plan@, ZombieKind::Conehead)
        &&& self.bucket_used == count_of(self.plan@, ZombieKind::Buckethead)
        &&& self.cone_used <= recipe.max_cone
        &&& self.bucket_used <= recipe.max_bucket
    }

    /// A wave with nothing picked yet: the flag alone on a flag wave.
    fn start(recipe: &WaveRecipe) -> (d: PlanDraft)
        requires
            recipe.budget + flag_point(*recipe) <= u32::MAX,
        ensures
            d.matches(*recipe, Seq::empty()),
    {
        let mut plan: Vec<ZombieKind> = Vec::new();
        let mut spent: u32 = 0;
        if recipe.final_flag {
            proof {
                lemma_push_points(plan@, ZombieKind::Flag);
            }
            plan.push(ZombieKind::Flag);
            spent = spent + zombie_point_cost(ZombieKind::Flag);
        }
        let d = PlanDraft { plan, remaining: recipe.budget, cone_used: 0, bucket_used: 0, spent };
        assert(d.plan@ == plan_lead(*recipe) + Seq::<ZombieKind>::empty());
        d
    }

    /// Places the pick of one more roll while points remain.
    fn place(&mut self, recipe: &WaveRecipe, roll: u32, Ghost(rolls): Ghost<Seq<u32>>)
        requires
            old(self).matches(*recipe, rolls),
            old(self).remaining >= POINT_NORMAL,
        ensures
            final(self).matches(*recipe, rolls.push(roll)),
            final(self).remaining < old(self).remaining,
    {
        let kind = pick_wave_kind(roll, self.remaining, self.cone_used, self.bucket_used, recipe);
        assert(rolls.push(roll).drop_last() == rolls);
        if kind == ZombieKind::Buckethead {
            self.bucket_used = self.bucket_used + 1;
        } else if kind == ZombieKind::Conehead {
            self.cone_used = self.cone_used + 1;
        }
        let cost = zombie_point_cost(kind);
        proof {
            lemma_push_points(self.plan@, kind);
        }
        let ghost picks = picks_after(*recipe, rolls).0;
        assert(self.plan@.push(kind) == plan_lead(*recipe) + picks.push(kind));
        self.plan.push(kind);
        self.remaining = self.remaining - cost;
        self.spent = self.spent + cost;
    }
}

/// The wave plan that a run of rolls gives for `recipe`: a flag-led wave
/// starts with its flag, whose point does not come out of the budget;
/// then each roll picks a kind by `spec_pick` under the cone and bucket
/// caps and pays for it, until fewer points are left than a plain zombie
/// costs (later rolls go unused). Returns the plan and the points spent;
/// when the rolls suffice to spend the budget the plan fits the recipe.
pub fn plan_from_rolls(recipe: &WaveRecipe, rolls: &Vec<u32>) -> (r: (Vec<ZombieKind>, u32))
    requires
        recipe.budget + flag_point(*recipe) <= u32::MAX,
    ensures
        r.0@ == spec_plan_from_rolls(*recipe, rolls@),
        r.1 == plan_points(r.0@),
        r.1 + picks_after(*recipe, rolls@).1 == recipe.budget + flag_point(*recipe),
        rolls_suffice(*recipe, rolls@) ==> plan_fits_recipe(r.0@, r.1 as nat, *recipe),
{
    let mut d = PlanDraft::start(recipe);
    let mut i: usize = 0;
    assert(rolls@.take(0) == Seq::<u32>::empty());
    while i < rolls.len() && d.remaining >= POINT_NORMAL
        invariant
            i <= rolls@.len(),
            d.matches(*recipe, rolls@.take(i as int)),
        decreases rolls@.len() - i,
    {
        d.place(recipe, rolls[i], Ghost(rolls@.take(i as int)));
        assert(rolls@.take(i + 1) == rolls@.take(i as int).push(rolls@[i as int]));
        i = i + 1;
    }
    proof {
        if i < rolls.len() {
            lemma_spent_rolls_unused(*recipe, rolls@, i as int, rolls@.len() as int);
        }
        assert(rolls@.take(rolls@.len() as int) == rolls@);
    }
    (d.plan, d.spent)
}

/// Budget-based wave composition: draws a roll below 100 for each pick
/// until the budget is spent, and builds the plan those rolls give (see
/// `plan_from_rolls`). Returns the plan and the points spent. Which rolls
/// come is chance's.
pub fn build_wave_plan(recipe: WaveRecipe) -> (r: (Vec<ZombieKind>, u32))
    requires
        recipe.budget + flag_point(recipe) <= u32::MAX,
    ensures
        plan_fits_recipe(r.0@, r.1 as nat, recipe),
        is_drawn_plan(r.0@, recipe),
{
    let mut d = PlanDraft::start(&recipe);
    let ghost mut drawn: Seq<u32> = Seq::empty();
    while d.remaining >= POINT_NORMAL
        invariant
            d.matches(recipe, drawn),
            rolls_in_range(drawn),
        decreases d.remaining,
    {
        let roll = random_below(100) as u32;
        d.place(&recipe, roll, Ghost(drawn));
        proof {
            drawn = drawn.push(roll);
        }
    }
    assert(rolls_suffice(recipe, drawn) && d.plan@ == spec_plan_from_rolls(recipe, drawn));
    (d.plan, d.spent)
}

/// Points a wave of a level spends: its budget plus the flag on a huge wave.
pub open spec fn wave_points(adventure_level: nat, w: nat) -> nat {
    spec_wave_budget(adventure_level, w) + if spec_wave_is_huge(adventure_level, w) {
        1nat
    } else {
        0nat
    }
}

/// Points spent by the first `n` waves of a level.
pub open spec fn level_points_upto(adventure_level: nat, n: nat) -> nat
    decreases n,
{
    if n == 0 {
        0
    } else {
        level_points_upto(adventure_level, (n - 1) as nat) + wave_points(
            adventure_level,
            (n - 1) as nat,
        )
    }
}

/// Points spent by a whole level.
pub open spec fn level_points(adventure_level: nat) -> nat {
    level_points_upto(adventure_level, spec_wave_count(adventure_level))
}

proof fn lemma_points_upto_mono(adventure_level: nat, m: nat, n: nat)
    requires
        m <= n,
    ensures
        level_points_upto(adventure_level, m) <= level_points_upto(adventure_level, n),
    decreases n,
{
    if m < n {
        lemma_points_upto_mono(adventure_level, m, (n - 1) as nat);
    }
}

/// A level whose total wave points fit a `u32` (true of every level the
/// adventure reaches; huge 0-based levels would overflow the counters).
pub open spec fn level_fits(adventure_level: nat) -> bool {
    level_points(adventure_level) <= u32::MAX
}

proof fn lemma_level_fits_budgets(adventure_level: nat)
    requires
        level_fits(adventure_level),
    ensures
        budgets_fit(adventure_level),
{
    assert forall|w: nat| w < spec_wave_count(adventure_level) implies #[trigger] spec_wave_budget(
        adventure_level,
        w,
    ) <= u32::MAX by {
        lemma_points_upto_mono(adventure_level, w + 1, spec_wave_count(adventure_level));
    }
}

fn wave_points_wide(adventure_level: u32, w: u32) -> (r: u64)
    ensures
        r == wave_points(adventure_level as nat, w as nat),
        r <= 6000000000,
{
    let n = level_wave_count(adventure_level);
    let budget: u64 = if w == n - 1 && n >= 6 {
        if adventure_level == 0 {
            4
        } else {
            10
        }
    } else if adventure_level == 0 {
        let i = w % 4;
        if i <= 1 {
            1
        } else if i == 2 {
            2
        } else {
            3
        }
    } else {
        let i = w % 10;
        let base: u64 = if i <= 2 {
            1
        } else if i <= 5 {
            2
        } else if i <= 8 {
            3
        } else {
            4
        };
        let scale: u64 = 1 + (adventure_level.saturating_sub(2) / 3) as u64;
        assert(base * scale <= 4 * 1431655766) by (nonlinear_arith)
            requires
                base <= 4,
                scale <= 1431655766,
        ;
        assert(base * scale == spec_wave_budget(adventure_level as nat, w as nat));
        base * scale
    };
    if wave_is_huge(adventure_level, w) {
        budget + 1
    } else {
        budget
    }
}

/// Whether a level's total wave points fit a `u32` (see `level_fits`):
/// the test to make before loading a level.
pub fn level_points_fit(adventure_level: u32) -> (r: bool)
    ensures
        r == level_fits(adventure_level as nat),
{
    let n = level_wave_count(adventure_level);
    let mut total: u64 = 0;
    let mut w: u32 = 0;
    while w < n
        invariant
            w <= n,
            n == spec_wave_count(adventure_level as nat),
            n <= 10,
            total == level_points_upto(adventure_level as nat, w as nat),
            total <= w * 6000000000,
        decreases n - w,
    {
        total = total + wave_points_wide(adventure_level, w);
        w = w + 1;
    }
    total <= u32::MAX as u64
}

/// The recipe of wave `w` of a level (see `WaveRecipe::is_recipe_for`).
pub open spec fn spec_level_recipe(adventure_level: nat, w: nat) -> WaveRecipe {
    let huge = spec_wave_is_huge(adventure_level, w);
    WaveRecipe {
        budget: spec_wave_budget(adventure_level, w) as u32,
        max_cone: if adventure_level >= 1 {
            if huge {
                4
            } else {
                2
            }
        } else {
            0
        },
        max_bucket: if adventure_level >= 3 {
            if huge {
                2
            } else {
                1
            }
        } else {
            0
        },
        final_flag: huge,
        huge,
    }
}

/// Builds every wave plan of a level up front; returns the plans and the
/// points spent across all of them. Each plan is one drawn for its
/// wave's recipe.
pub fn build_level_waves(adventure_level: u32) -> (r: (Vec<Vec<ZombieKind>>, u32))
    requires
        level_fits(adventure_level as nat),
    ensures
        r.0@.len() == spec_wave_count(adventure_level as nat),
        r.1 == level_points(adventure_level as nat),
        forall|w: int|
            0 <= w < r.0@.len() ==> #[trigger] is_drawn_plan(
                r.0@[w]@,
                spec_level_recipe(adventure_level as nat, w as nat),
            ),
        forall|w: int|
            0 <= w < r.0@.len() ==> {
                &&& plan_points((#[trigger] r.0@[w])@) == wave_points(adventure_level as nat, w as nat)
                &&& (spec_wave_is_huge(adventure_level as nat, w as nat) ==> r.0@[w]@.len() > 0
                    && r.0@[w]@[0] == ZombieKind::Flag)
                &&& forall|i: int|
                    (if spec_wave_is_huge(adventure_level as nat, w as nat) {
                        1int
                    } else {
                        0int
                    }) <= i < r.0@[w]@.len() ==> r.0@[w]@[i] != ZombieKind::Flag
                &&& count_of(r.0@[w]@, ZombieKind::Conehead) <= if adventure_level >= 1 {
                    if spec_wave_is_huge(adventure_level as nat, w as nat) {
                        4nat
                    } else {
                        2nat
                    }
                } else {
                    0nat
                }
                &&& count_of(r.0@[w]@, ZombieKind::Buckethead) <= if adventure_level >= 3 {
                    if spec_wave_is_huge(adventure_level as nat, w as nat) {
                        2nat
                    } else {
                        1nat
                    }
                } else {
                    0nat
                }
            },
{
    proof {
        lemma_level_fits_budgets(adventure_level as nat);
    }
    let recipes = build_level_recipes(adventure_level);
    let mut all: Vec<Vec<ZombieKind>> = Vec::new();
    let mut total_spent: u32 = 0;
    let mut i: usize = 0;
    while i < recipes.len()
        invariant
            i <= recipes@.len(),
            recipes@.len() == spec_wave_count(adventure_level as nat),
            forall|w: int| #![trigger recipes@[w]] 0 <= w < recipes@.len() ==> recipes@[w].is_recipe_for(adventure_level as nat, w as nat),
            level_fits(adventure_level as nat),
            all@.len() == i,
            total_spent == level_points_upto(adventure_level as nat, i as nat),
            forall|w: int|
                0 <= w < i ==> plan_fits_recipe((#[trigger] all@[w])@, wave_points(adventure_level as nat, w as nat), recipes@[w]),
            forall|w: int|
                0 <= w < i ==> is_drawn_plan((#[trigger] all@[w])@, recipes@[w]),
        decreases recipes@.len() - i,
    {
        let r = recipes[i];
        assert(recipes@[i as int].is_recipe_for(adventure_level as nat, i as nat));
        assert(r == recipes@[i as int]);
        proof {
            lemma_points_upto_mono(adventure_level as nat, (i + 1) as nat, spec_wave_count(adventure_level as nat));
        }
        let (plan, spent) = build_wave_plan(r);
        total_spent = total_spent + spent;
        all.push(plan);
        i = i + 1;
    }
    assert forall|w: int| 0 <= w < all@.len() implies {
        &&& plan_points((#[trigger] all@[w])@) == wave_points(adventure_level as nat, w as nat)
        &&& (spec_wave_is_huge(adventure_level as nat, w as nat) ==> all@[w]@.len() > 0
            && all@[w]@[0] == ZombieKind::Flag)
        &&& forall|i: int|
            (if spec_wave_is_huge(adventure_level as nat, w as nat) {
                1int
            } else {
                0int
            }) <= i < all@[w]@.len() ==> all@[w]@[i] != ZombieKind::Flag
        &&& count_of(all@[w]@, ZombieKind::Conehead) <= if adventure_level >= 1 {
            if spec_wave_is_huge(adventure_level as nat, w as nat) {
                4nat
            } else {
                2nat
            }
        } else {
            0nat
        }
        &&& count_of(all@[w]@, ZombieKind::Buckethead) <= if adventure_level >= 3 {
            if spec_wave_is_huge(adventure_level as nat, w as nat) {
                2nat
            } else {
                1nat
            }
        } else {
            0nat
        }
    } by {
        assert(recipes@[w].is_recipe_for(adventure_level as nat, w as nat));
    }
    assert forall|w: int| 0 <= w < all@.len() implies #[trigger] is_drawn_plan(
        all@[w]@,
        spec_level_recipe(adventure_level as nat, w as nat),
    ) by {
        assert(recipes@[w].is_recipe_for(adventure_level as nat, w as nat));
        assert(spec_wave_budget(adventure_level as nat, w as nat) <= u32::MAX);
        assert(recipes@[w] == spec_level_recipe(adventure_level as nat, w as nat));
    }
    (all, total_spent)
}


/// Wave director state of a level.
#[derive(Debug)]
pub struct WaveState {
    /// All planned waves for this level.
    pub wave_plans: Vec<Vec<ZombieKind>>,
    /// Whether each wave is a huge wave (index-aligned with `wave_plans`).
    pub huge_flags: Vec<bool>,
    /// 0-based index of the wave being played or waiting to start.
    pub current_wave: u32,
    /// Total waves in this level.
    pub num_waves: u32,
    /// A wave is spawning or on the lawn.
    pub started: bool,
    /// In the gap between two waves.
    pub between_waves: bool,
    /// Every wave is finished.
    pub cleared: bool,
    /// The current wave is huge.
    pub huge_wave: bool,
    /// Countdown before the first wave.
    pub start_delay_remaining: i32,
    /// Countdown of an inter-wave gap.
    pub inter_wave_remaining: i32,
    /// Spawn cadence inside the active wave.
    pub spawn_timer_remaining: i32,
    /// Current wave plan.
    pub planned: Vec<ZombieKind>,
    /// Zombies of the current wave still to spawn.
    pub queued: u32,
    /// Zombies of the current wave spawned so far.
    pub spawned: u32,
    /// Zombies across the whole level.
    pub total_in_level: u32,
    /// Zombies spawned across all waves so far.
    pub total_spawned_all: u32,
    /// Points spent building the plans.
    pub budget_spent: u32,
}

/// Sum of the lengths of a level's plans.
pub open spec fn plans_len_sum(plans: Seq<Vec<ZombieKind>>) -> nat
    decreases plans.len(),
{
    if plans.len() == 0 {
        0
    } else {
        plans_len_sum(plans.drop_last()) + plans.last()@.len()
    }
}

impl WaveState {
    /// Counters agree: every plan's length fits a `u32`, and while zombies
    /// are queued, spawned plus queued is the current plan's length.
    pub open spec fn wf(&self) -> bool {
        &&& forall|i: int| 0 <= i < self.wave_plans@.len() ==> #[trigger] self.wave_plans@[i]@.len() <= u32::MAX
        &&& self.planned@.len() <= u32::MAX
        &&& self.queued > 0 ==> self.spawned + self.queued == self.planned@.len()
    }

    /// Fields a director step leaves alone.
    pub open spec fn same_level(&self, other: &WaveState) -> bool {
        &&& self.wave_plans@ == other.wave_plans@
        &&& self.huge_flags@ == other.huge_flags@
        &&& self.num_waves == other.num_waves
        &&& self.total_in_level == other.total_in_level
        &&& self.budget_spent == other.budget_spent
    }

    /// The state after wave `idx` began from `before`.
    pub open spec fn began_from(&self, before: &WaveState, idx: u32) -> bool {
        &&& self.same_level(before)
        &&& self.current_wave == idx
        &&& self.started
        &&& !self.between_waves
        &&& self.cleared == before.cleared
        &&& self.planned@ == if idx < before.wave_plans@.len() {
            before.wave_plans@[idx as int]@
        } else {
            Seq::empty()
        }
        &&& self.queued == self.planned@.len()
        &&& self.spawned == 0
        &&& self.spawn_timer_remaining == 0
        &&& self.huge_wave == if idx < before.huge_flags@.len() {
            before.huge_flags@[idx as int]
        } else {
            false
        }
        &&& self.total_spawned_all == before.total_spawned_all
    }

    /// Only the countdowns differ from `before`.
    pub open spec fn counted_down_from(&self, before: &WaveState) -> bool {
        &&& self.same_level(before)
        &&& self.current_wave == before.current_wave
        &&& self.started == before.started
        &&& self.cleared == before.cleared
        &&& self.huge_wave == before.huge_wave
        &&& self.planned@ == before.planned@
        &&& self.queued == before.queued
        &&& self.spawned == before.spawned
        &&& self.total_spawned_all == before.total_spawned_all
    }

    /// Nothing changed.
    pub open spec fn unchanged_from(&self, before: &WaveState) -> bool {
        &&& self.counted_down_from(before)
        &&& self.between_waves == before.between_waves
        &&& self.start_delay_remaining == before.start_delay_remaining
        &&& self.inter_wave_remaining == before.inter_wave_remaining
        &&& self.spawn_timer_remaining == before.spawn_timer_remaining
    }

    /// Fresh director: no plans, one nominal wave, full first-wave delay.
    pub open spec fn is_fresh(&self) -> bool {
        &&& self.wave_plans@.len() == 0
        &&& self.huge_flags@.len() == 0
        &&& self.current_wave == 0
        &&& self.num_waves == 1
        &&& !self.started
        &&& !self.between_waves
        &&& !self.cleared
        &&& !self.huge_wave
        &&& self.start_delay_remaining == FIRST_WAVE_DELAY_TICKS
        &&& self.inter_wave_remaining == 0
        &&& self.spawn_timer_remaining == 0
        &&& self.planned@.len() == 0
        &&& self.queued == 0
        &&& self.spawned == 0
        &&& self.total_in_level == 0
        &&& self.total_spawned_all == 0
        &&& self.budget_spent == 0
    }

    /// Fresh director.
    pub fn new() -> (w: WaveState)
        ensures
            w.is_fresh(),
            w.wf(),
    {
        WaveState {
            wave_plans: Vec::new(),
            huge_flags: Vec::new(),
            current_wave: 0,
            num_waves: 1,
            started: false,
            between_waves: false,
            cleared: false,
            huge_wave: false,
            start_delay_remaining: FIRST_WAVE_DELAY_TICKS,
            inter_wave_remaining: 0,
            spawn_timer_remaining: 0,
            planned: Vec::new(),
            queued: 0,
            spawned: 0,
            total_in_level: 0,
            total_spawned_all: 0,
            budget_spent: 0,
        }
    }

    /// A wave is actively spawning.
    pub fn is_active(&self) -> (r: bool)
        ensures
            r == (self.started && self.queued > 0),
    {
        self.started && self.queued > 0
    }

    /// Starts wave `idx`: its plan becomes the spawn queue.
    fn begin_wave_index(&mut self, idx: u32)
        requires
            old(self).wf(),
        ensures
            final(self).wf(),
            final(self).began_from(old(self), idx),
            final(self).start_delay_remaining == old(self).start_delay_remaining,
            final(self).inter_wave_remaining == old(self).inter_wave_remaining,
    {
        self.current_wave = idx;
        self.started = true;
        self.between_waves = false;
        let planned: Vec<ZombieKind> = if (idx as usize) < self.wave_plans.len() {
            self.wave_plans[idx as usize].clone()
        } else {
            Vec::new()
        };
        assert(planned@.len() <= u32::MAX);
        self.planned = planned;
        self.queued = self.planned.len() as u32;
        self.spawned = 0;
        self.spawn_timer_remaining = 0;
        self.huge_wave = if (idx as usize) < self.huge_flags.len() {
            self.huge_flags[idx as usize]
        } else {
            false
        };
    }

    /// A director step's countdown arithmetic stays in range.
    pub open spec fn start_step_fits(&self, frame_ticks: i32) -> bool {
        frame_ticks <= 0 || self.cleared || self.wave_plans@.len() == 0 || self.started || if self.between_waves {
            self.inter_wave_remaining - frame_ticks >= i32::MIN && self.current_wave < u32::MAX
        } else {
            self.start_delay_remaining - frame_ticks >= i32::MIN
        }
    }

    /// Wave director tick: runs the pre-first-wave countdown and inter-wave
    /// gaps; begins the first wave, or the next one, when its countdown ends.
    pub fn start_wave_if_needed(&mut self, frame_ticks: i32)
        requires
            old(self).wf(),
            old(self).start_step_fits(frame_ticks),
        ensures
            final(self).wf(),
            ({
                let o = *old(self);
                let f = *final(self);
                if frame_ticks <= 0 || o.cleared || o.wave_plans@.len() == 0 || o.started {
                    f.unchanged_from(&o)
                } else if o.between_waves {
                    let left = o.inter_wave_remaining - frame_ticks;
                    if left > 0 {
                        &&& f.counted_down_from(&o)
                        &&& f.between_waves
                        &&& f.inter_wave_remaining == left
                        &&& f.start_delay_remaining == o.start_delay_remaining
                        &&& f.spawn_timer_remaining == o.spawn_timer_remaining
                    } else if o.current_wave + 1 < o.num_waves {
                        &&& f.inter_wave_remaining == left
                        &&& f.start_delay_remaining == o.start_delay_remaining
                        &&& f.began_from(&o, (o.current_wave + 1) as u32)
                    } else {
                        &&& f.counted_down_from(&o)
                        &&& !f.between_waves
                        &&& f.inter_wave_remaining == left
                        &&& f.start_delay_remaining == o.start_delay_remaining
                        &&& f.spawn_timer_remaining == o.spawn_timer_remaining
                    }
                } else {
                    let left = o.start_delay_remaining - frame_ticks;
                    if left > 0 {
                        &&& f.counted_down_from(&o)
                        &&& !f.between_waves
                        &&& f.start_delay_remaining == left
                        &&& f.inter_wave_remaining == o.inter_wave_remaining
                        &&& f.spawn_timer_remaining == o.spawn_timer_remaining
                    } else {
                        &&& f.start_delay_remaining == left
                        &&& f.inter_wave_remaining == o.inter_wave_remaining
                        &&& f.began_from(&o, 0)
                    }
                }
            }),
    {
        if frame_ticks <= 0 || self.cleared || self.wave_plans.len() == 0 {
            return;
        }
        if self.started {
            return;
        }
        if self.between_waves {
            self.inter_wave_remaining = self.inter_wave_remaining - frame_ticks;
            if self.inter_wave_remaining > 0 {
                return;
            }
            let next = self.current_wave + 1;
            if next < self.num_waves {
                self.begin_wave_index(next);
            } else {
                self.between_waves = false;
            }
            return;
        }
        self.start_delay_remaining = self.start_delay_remaining - frame_ticks;
        if self.start_delay_remaining > 0 {
            return;
        }
        self.begin_wave_index(0);
    }

    /// A spawn step's counters stay in range.
    pub open spec fn spawn_step_fits(&self, frame_ticks: i32) -> bool {
        frame_ticks <= 0 || !self.started || self.queued == 0 || (self.spawn_timer_remaining
            - frame_ticks >= i32::MIN && self.spawn_timer_remaining - frame_ticks
            + SPAWN_STAGGER_TICKS <= i32::MAX && self.total_spawned_all < u32::MAX)
    }

    /// Spawn cadence of the active wave: when the stagger timer runs out,
    /// the next planned zombie kind is due. Returns the kind to spawn.
    pub fn spawn_step(&mut self, frame_ticks: i32) -> (due: Option<ZombieKind>)
        requires
            old(self).wf(),
            old(self).spawn_step_fits(frame_ticks),
        ensures
            final(self).wf(),
            ({
                let o = *old(self);
                let f = *final(self);
                if frame_ticks <= 0 || !o.started || o.queued == 0 {
                    &&& f.unchanged_from(&o)
                    &&& due is None
                } else if o.spawn_timer_remaining - frame_ticks > 0 {
                    &&& f.counted_down_from(&o)
                    &&& f.between_waves == o.between_waves
                    &&& f.start_delay_remaining == o.start_delay_remaining
                    &&& f.inter_wave_remaining == o.inter_wave_remaining
                    &&& f.spawn_timer_remaining == o.spawn_timer_remaining - frame_ticks
                    &&& due is None
                } else {
                    &&& f.same_level(&o)
                    &&& f.current_wave == o.current_wave
                    &&& f.started == o.started
                    &&& f.cleared == o.cleared
                    &&& f.huge_wave == o.huge_wave
                    &&& f.between_waves == o.between_waves
                    &&& f.start_delay_remaining == o.start_delay_remaining
                    &&& f.inter_wave_remaining == o.inter_wave_remaining
                    &&& f.planned@ == o.planned@
                    &&& f.spawn_timer_remaining == o.spawn_timer_remaining - frame_ticks + SPAWN_STAGGER_TICKS
                    &&& due == Some(o.planned@[o.spawned as int])
                    &&& f.spawned == o.spawned + 1
                    &&& f.queued == o.queued - 1
                    &&& f.total_spawned_all == o.total_spawned_all + 1
                }
            }),
    {
        if frame_ticks <= 0 || !self.started || self.queued == 0 {
            return None;
        }
        self.spawn_timer_remaining = self.spawn_timer_remaining - frame_ticks;
        if self.spawn_timer_remaining > 0 {
            return None;
        }
        self.spawn_timer_remaining = self.spawn_timer_remaining + SPAWN_STAGGER_TICKS;
        let spawn_idx = self.spawned as usize;
        if spawn_idx >= self.planned.len() {
            self.queued = 0;
            return None;
        }
        let kind = self.planned[spawn_idx];
        self.spawned = self.spawned + 1;
        self.total_spawned_all = self.total_spawned_all + 1;
        self.queued = self.queued - 1;
        Some(kind)
    }

    /// Spawn cadence plus the lane draw: the zombie that enters the lawn
    /// this tick, if one is due, in a random lane.
    pub fn spawn_wave_zombies(&mut self, frame_ticks: i32) -> (z: Option<Zombie>)
        requires
            old(self).wf(),
            old(self).spawn_step_fits(frame_ticks),
        ensures
            final(self).wf(),
            final(self).total_spawned_all == old(self).total_spawned_all + if z is Some {
                1int
            } else {
                0int
            },
            z matches Some(zz) ==> {
                &&& zz.kind == old(self).planned@[old(self).spawned as int]
                &&& zz.row < LAWN_ROWS
                &&& zz.body_hp == crate::constants::ZOMBIE_BODY_HP
                &&& zz.armor_hp == spec_armor_of(zz.kind)
                &&& !zz.hypnotized
                &&& zz.eat_cooldown_remaining == 0
                &&& final(self).spawned == old(self).spawned + 1
                &&& final(self).queued == old(self).queued - 1
            },
            z is None ==> final(self).spawned == old(self).spawned && final(self).queued
                == old(self).queued,
            final(self).same_level(old(self)),
            final(self).current_wave == old(self).current_wave,
            final(self).started == old(self).started,
            final(self).cleared == old(self).cleared,
            final(self).between_waves == old(self).between_waves,
            final(self).huge_wave == old(self).huge_wave,
            final(self).planned@ == old(self).planned@,
            ({
                let o = *old(self);
                let due = frame_ticks > 0 && o.started && o.queued > 0 && o.spawn_timer_remaining
                    - frame_ticks <= 0;
                &&& (z is Some <==> due)
                &&& final(self).spawn_timer_remaining == if frame_ticks <= 0 || !o.started
                    || o.queued == 0 {
                    o.spawn_timer_remaining as int
                } else if due {
                    o.spawn_timer_remaining - frame_ticks + SPAWN_STAGGER_TICKS
                } else {
                    o.spawn_timer_remaining - frame_ticks
                }
                &&& final(self).start_delay_remaining == o.start_delay_remaining
                &&& final(self).inter_wave_remaining == o.inter_wave_remaining
            }),
    {
        match self.spawn_step(frame_ticks) {
            Some(kind) => {
                let row = random_below(LAWN_ROWS);
                Some(Zombie::new(kind, row))
            },
            None => None,
        }
    }

    /// Wave resolution: once the current wave has fully spawned and its
    /// zombies are gone, either open the inter-wave gap or complete the
    /// level (pausing on the level-complete overlay). `zombies_on_lawn`
    /// tells whether any zombie is still on the lawn.
    pub fn advance_or_complete_level(
        &mut self,
        zombies_on_lawn: bool,
        flow: &mut FlowControl,
        ui: &mut PilotUi,
    )
        requires
            old(self).wf(),
            old(self).current_wave < u32::MAX,
        ensures
            final(self).wf(),
            final(self).same_level(old(self)),
            final(self).current_wave == old(self).current_wave,
            final(self).total_spawned_all == old(self).total_spawned_all,
            final(self).spawned == old(self).spawned,
            final(self).queued == old(self).queued,
            final(self).start_delay_remaining == old(self).start_delay_remaining,
            ({
                let o = *old(self);
                let f = *final(self);
                let max_waves: u32 = if o.num_waves >= 1 { o.num_waves } else { 1 };
                if o.cleared || !o.started || old(flow).overlay != Overlay::Clear || o.queued > 0
                    || zombies_on_lawn {
                    &&& f.unchanged_from(&o)
                    &&& *final(flow) == *old(flow)
                    &&& final(ui).flags_done == old(ui).flags_done
                    &&& final(ui).flags_total == old(ui).flags_total
                } else if o.current_wave + 1 >= o.num_waves {
                    &&& f.cleared
                    &&& f.started == o.started
                    &&& f.between_waves == o.between_waves
                    &&& f.planned@ == o.planned@
                    &&& f.inter_wave_remaining == o.inter_wave_remaining
                    &&& final(ui).flags_done == max_waves
                    &&& final(ui).flags_total == old(ui).flags_total
                    &&& final(flow).overlay == Overlay::LevelComplete
                    &&& final(flow).paused
                    &&& final(flow).pending_restart == old(flow).pending_restart
                } else {
                    &&& !f.cleared
                    &&& !f.started
                    &&& f.between_waves
                    &&& f.inter_wave_remaining == INTER_WAVE_DELAY_TICKS
                    &&& f.planned@.len() == 0
                    &&& final(ui).flags_done == o.current_wave + 1
                    &&& final(ui).flags_total == max_waves
                    &&& *final(flow) == *old(flow)
                }
            }),
            final(ui).adventure_level == old(ui).adventure_level,
            final(ui).phase == old(ui).phase,
            final(ui).sun == old(ui).sun,
            final(ui)@ == (UiView {
                flags_done: final(ui).flags_done,
                flags_total: final(ui).flags_total,
                ..old(ui)@
            }),
    {
        if self.cleared || !self.started || flow.overlay != Overlay::Clear {
            return;
        }
        if self.queued > 0 || zombies_on_lawn {
            return;
        }
        let next = self.current_wave + 1;
        let max_waves: u32 = if self.num_waves >= 1 { self.num_waves } else { 1 };
        if next >= self.num_waves {
            self.cleared = true;
            ui.flags_done = max_waves;
            flow.overlay = Overlay::LevelComplete;
            flow.paused = true;
            return;
        }
        self.started = false;
        self.between_waves = true;
        self.inter_wave_remaining = INTER_WAVE_DELAY_TICKS;
        self.planned.clear();
        ui.flags_done = next;
        ui.flags_total = max_waves;
    }
}

impl WaveState {
    /// The director of a freshly loaded level: every wave planned from the
    /// level's recipes (a plan drawn for each), counters cleared, the
    /// first-wave countdown full.
    pub open spec fn is_loaded_for(&self, adventure_level: nat) -> bool {
        &&& self.wf()
        &&& self.wave_plans@.len() == spec_wave_count(adventure_level)
        &&& forall|w: int|
            0 <= w < self.wave_plans@.len() ==> #[trigger] is_drawn_plan(
                self.wave_plans@[w]@,
                spec_level_recipe(adventure_level, w as nat),
            )
        &&& forall|w: int|
            0 <= w < self.wave_plans@.len() ==> plan_points((#[trigger] self.wave_plans@[w])@)
                == wave_points(adventure_level, w as nat)
        &&& self.huge_flags@.len() == spec_wave_count(adventure_level)
        &&& forall|w: int|
            0 <= w < self.huge_flags@.len() ==> #[trigger] self.huge_flags@[w] == spec_wave_is_huge(
                adventure_level,
                w as nat,
            )
        &&& self.num_waves == spec_wave_count(adventure_level)
        &&& self.total_in_level == plans_len_sum(self.wave_plans@)
        &&& self.budget_spent == level_points(adventure_level)
        &&& self.current_wave == 0
        &&& self.planned@.len() == 0
        &&& self.queued == 0
        &&& self.spawned == 0
        &&& self.total_spawned_all == 0
        &&& !self.started
        &&& !self.between_waves
        &&& !self.cleared
        &&& !self.huge_wave
        &&& self.start_delay_remaining == FIRST_WAVE_DELAY_TICKS
        &&& self.inter_wave_remaining == 0
        &&& self.spawn_timer_remaining == 0
    }

    /// Rebuilds every wave plan and counter for `adventure_level`.
    pub fn load_wave_plans(&mut self, adventure_level: u32)
        requires
            level_fits(adventure_level as nat),
        ensures
            final(self).is_loaded_for(adventure_level as nat),
    {
        let (plans, spent) = build_level_waves(adventure_level);
        proof {
            lemma_level_fits_budgets(adventure_level as nat);
        }
        let recipes = build_level_recipes(adventure_level);
        let mut flags: Vec<bool> = Vec::new();
        let mut i: usize = 0;
        while i < recipes.len()
            invariant
                i <= recipes@.len(),
                forall|w: int| #![trigger recipes@[w]] 0 <= w < recipes@.len() ==> recipes@[w].is_recipe_for(
                    adventure_level as nat,
                    w as nat,
                ),
                flags@.len() == i,
                forall|w: int| 0 <= w < i ==> #[trigger] flags@[w] == spec_wave_is_huge(
                    adventure_level as nat,
                    w as nat,
                ),
            decreases recipes@.len() - i,
        {
            assert(recipes@[i as int].is_recipe_for(adventure_level as nat, i as nat));
            flags.push(recipes[i].huge);
            i = i + 1;
        }
        let mut total: u32 = 0;
        let mut j: usize = 0;
        while j < plans.len()
            invariant
                j <= plans@.len(),
                plans@.len() == spec_wave_count(adventure_level as nat),
                forall|w: int|
                    0 <= w < plans@.len() ==> plan_points((#[trigger] plans@[w])@) == wave_points(
                        adventure_level as nat,
                        w as nat,
                    ),
                level_fits(adventure_level as nat),
                forall|w: int|
                    0 <= w < plans@.len() ==> #[trigger] is_drawn_plan(
                        plans@[w]@,
                        spec_level_recipe(adventure_level as nat, w as nat),
                    ),
                total == plans_len_sum(plans@.take(j as int)),
                plans_len_sum(plans@.take(j as int)) <= level_points_upto(adventure_level as nat, j as nat),
            decreases plans@.len() - j,
        {
            proof {
                assert(plans@.take(j + 1).drop_last() == plans@.take(j as int));
                lemma_plan_len_le_points(plans@[j as int]@);
                lemma_points_upto_mono(adventure_level as nat, (j + 1) as nat, spec_wave_count(adventure_level as nat));
            }
            total = total + plans[j].len() as u32;
            j = j + 1;
        }
        assert(plans@.take(plans@.len() as int) == plans@);
        proof {
            assert forall|w: int| 0 <= w < plans@.len() implies #[trigger] plans@[w]@.len() <= u32::MAX by {
                lemma_plan_len_le_points(plans@[w]@);
                lemma_points_upto_mono(adventure_level as nat, (w + 1) as nat, spec_wave_count(adventure_level as nat));
            }
        }
        let n = plans.len() as u32;
        self.wave_plans = plans;
        self.huge_flags = flags;
        self.num_waves = n;
        self.total_in_level = total;
        self.budget_spent = spent;
        self.current_wave = 0;
        self.planned = Vec::new();
        self.queued = 0;
        self.spawned = 0;
        self.total_spawned_all = 0;
        self.started = false;
        self.between_waves = false;
        self.cleared = false;
        self.huge_wave = false;
        self.start_delay_remaining = FIRST_WAVE_DELAY_TICKS;
        self.inter_wave_remaining = 0;
        self.spawn_timer_remaining = 0;
    }
}

impl Default for WaveState {
    fn default() -> (w: WaveState)
        ensures
            w.is_fresh(),
            w.wf(),
    {
        WaveState::new()
    }
}

} // verus!
