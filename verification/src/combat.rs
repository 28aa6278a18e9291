//! Combat rules: shooters and peas, blasts, bites, hypnotized brawls,
//! status effects (chill and freeze), lawn mowers and the lost game.
//! Positions on the lawn are measured by the caller; these rules take
//! what was measured (who is ahead, who stands where) as plain values.

use vstd::prelude::*;

use crate::board::{cell_index, on_lawn, Board};
use crate::constants::{
    CHERRY_BOMB_DAMAGE, CHOMPER_BITE_DAMAGE, CHOMPER_CHEW_TICKS, DOOM_SHROOM_DAMAGE, DYING_TICKS,
    FIRE_PEA_DAMAGE, ICE_SHROOM_CHILL_TICKS, ICE_SHROOM_FREEZE_TICKS, JALAPENO_DAMAGE, LAWN_COLS,
    LAWN_ROWS, PEA_DAMAGE, POTATO_MINE_DAMAGE, SNOW_PEA_CHILL_TICKS, SPIKEWEED_DAMAGE,
    SQUASH_DAMAGE, ZOMBIE_EAT_DAMAGE, ZOMBIE_EAT_INTERVAL_TICKS,
};
use crate::defs::PlantKind;
use crate::flow::{FlowControl, Overlay};
use crate::rng::coin_flip;
use crate::specials::{ChomperState, Plant};
use crate::zombie::Zombie;

verus! {

#[derive(Clone, Copy, Debug, PartialEq, Eq, Structural)]
pub enum PeaKind {
    Normal,
    Snow,
    Fire,
}

/// A pea in flight (its position and speed are measured by the caller).
#[derive(Clone, Copy, Debug, PartialEq, Eq, Structural)]
pub struct PeaProjectile {
    pub kind: PeaKind,
    pub row: usize,
    pub damage: i32,
}

/// A pea a shooter fires this tick. `rear` marks the second pea of a
/// Repeater volley, which leaves from behind the first.
#[derive(Clone, Copy, Debug, PartialEq, Eq, Structural)]
pub struct PeaShot {
    pub pea: PeaProjectile,
    pub rear: bool,
}

/// Snow Pea status: slows walking and bites while it lasts.
#[derive(Clone, Copy, Debug, PartialEq, Eq, Structural)]
pub struct Chilled {
    pub remaining_ticks: i32,
}

/// Ice-shroom stun: no walking, no eating; a chill follows on thaw.
#[derive(Clone, Copy, Debug, PartialEq, Eq, Structural)]
pub struct Frozen {
    pub remaining_ticks: i32,
    pub chill_after_ticks: i32,
}

/// A killed zombie playing its fall before it disappears.
#[derive(Clone, Copy, Debug, PartialEq, Eq, Structural)]
pub struct Dying {
    pub remaining_ticks: i32,
}

/// A lawn mower guarding a row; `active` once it has started its sweep.
#[derive(Clone, Copy, Debug, PartialEq, Eq, Structural)]
pub struct LawnMower {
    pub row: usize,
    pub active: bool,
}

/// Shooters: the plants that fire peas.
pub open spec fn is_shooter(kind: PlantKind) -> bool {
    kind == PlantKind::Peashooter || kind == PlantKind::SnowPea || kind == PlantKind::Repeater
        || kind == PlantKind::Threepeater
}

/// A zombie in `zrow` is in a shooter's lanes: its own row, or one of the
/// three rows a Threepeater covers.
pub open spec fn lane_covered(kind: PlantKind, prow: int, zrow: int) -> bool {
    if kind == PlantKind::Threepeater {
        -1 <= zrow - prow <= 1
    } else {
        zrow == prow
    }
}

/// A shooter has a target: some zombie (row, ahead-of-the-plant) in its lanes.
pub open spec fn has_target(kind: PlantKind, prow: int, zombies: Seq<(usize, bool)>) -> bool {
    exists|i: int| 0 <= i < zombies.len() && lane_covered(kind, prow, #[trigger] zombies[i].0 as int) && zombies[i].1
}

/// The volley a shooter fires.
pub open spec fn volley(kind: PlantKind, row: usize) -> Seq<PeaShot> {
    let front = PeaShot {
        pea: PeaProjectile {
            kind: if kind == PlantKind::SnowPea {
                PeaKind::Snow
            } else {
                PeaKind::Normal
            },
            row,
            damage: PEA_DAMAGE,
        },
        rear: false,
    };
    let side = |r: usize| PeaShot { pea: PeaProjectile { kind: PeaKind::Normal, row: r, damage: PEA_DAMAGE }, rear: false };
    if kind == PlantKind::Repeater {
        seq![front, PeaShot { pea: PeaProjectile { kind: PeaKind::Normal, row, damage: PEA_DAMAGE }, rear: true }]
    } else if kind == PlantKind::Threepeater {
        let up = if row >= 1 && row - 1 < LAWN_ROWS {
            seq![side((row - 1) as usize)]
        } else {
            Seq::empty()
        };
        let down = if row + 1 < LAWN_ROWS {
            seq![side((row + 1) as usize)]
        } else {
            Seq::empty()
        };
        seq![front] + up + down
    } else {
        seq![front]
    }
}

/// One shooter tick: the attack cooldown runs down (never below zero);
/// a ready shooter with a zombie ahead in its lanes fires its volley and
/// restarts the cooldown. `zombies` lists (row, ahead of this plant).
pub fn fire_step(plant: &mut Plant, frame_ticks: i32, zombies: &Vec<(usize, bool)>) -> (shots: Vec<PeaShot>)
    requires
        old(plant).row < usize::MAX,
        frame_ticks <= 0 || old(plant).attack_cooldown_remaining <= 0 || old(plant).attack_cooldown_remaining - frame_ticks >= i32::MIN,
    ensures
        final(plant).kind == old(plant).kind,
        final(plant).row == old(plant).row,
        final(plant).col == old(plant).col,
        final(plant).hp == old(plant).hp,
        final(plant).attack_cooldown_max == old(plant).attack_cooldown_max,
        ({
            let o = *old(plant);
            let cd: int = if frame_ticks <= 0 {
                o.attack_cooldown_remaining as int
            } else if o.attack_cooldown_remaining > 0 {
                if o.attack_cooldown_remaining - frame_ticks > 0 {
                    o.attack_cooldown_remaining - frame_ticks
                } else {
                    0
                }
            } else {
                o.attack_cooldown_remaining as int
            };
            if frame_ticks > 0 && is_shooter(o.kind) && cd <= 0 && has_target(o.kind, o.row as int, zombies@) {
                &&& shots@ == volley(o.kind, o.row)
                &&& final(plant).attack_cooldown_remaining == o.attack_cooldown_max
            } else {
                &&& shots@.len() == 0
                &&& final(plant).attack_cooldown_remaining == cd
            }
        }),
{
    let mut shots: Vec<PeaShot> = Vec::new();
    if frame_ticks <= 0 {
        return shots;
    }
    if plant.attack_cooldown_remaining > 0 {
        let left = plant.attack_cooldown_remaining - frame_ticks;
        plant.attack_cooldown_remaining = if left > 0 { left } else { 0 };
    }
    let kind = plant.kind;
    let shooter = kind == PlantKind::Peashooter || kind == PlantKind::SnowPea || kind
        == PlantKind::Repeater || kind == PlantKind::Threepeater;
    if !shooter || plant.attack_cooldown_remaining > 0 {
        return shots;
    }
    let three = kind == PlantKind::Threepeater;
    let mut target = false;
    let mut i: usize = 0;
    while i < zombies.len()
        invariant
            i <= zombies@.len(),
            three == (kind == PlantKind::Threepeater),
            target == exists|j: int| 0 <= j < i && lane_covered(kind, plant.row as int, #[trigger] zombies@[j].0 as int) && zombies@[j].1,
        decreases zombies@.len() - i,
    {
        let (zrow, ahead) = zombies[i];
        let lane_ok = if three {
            if zrow >= plant.row {
                zrow - plant.row <= 1
            } else {
                plant.row - zrow <= 1
            }
        } else {
            zrow == plant.row
        };
        assert(lane_ok == lane_covered(kind, plant.row as int, zombies@[i as int].0 as int));
        if lane_ok && ahead {
            target = true;
        }
        i = i + 1;
    }
    if !target {
        return shots;
    }
    plant.attack_cooldown_remaining = plant.attack_cooldown_max;
    let row = plant.row;
    let front_kind = if kind == PlantKind::SnowPea { PeaKind::Snow } else { PeaKind::Normal };
    shots.push(PeaShot { pea: PeaProjectile { kind: front_kind, row, damage: PEA_DAMAGE }, rear: false });
    if kind == PlantKind::Repeater {
        shots.push(PeaShot { pea: PeaProjectile { kind: PeaKind::Normal, row, damage: PEA_DAMAGE }, rear: true });
    }
    if three {
        if row >= 1 && row - 1 < LAWN_ROWS {
            shots.push(PeaShot { pea: PeaProjectile { kind: PeaKind::Normal, row: row - 1, damage: PEA_DAMAGE }, rear: false });
        }
        if row + 1 < LAWN_ROWS {
            shots.push(PeaShot { pea: PeaProjectile { kind: PeaKind::Normal, row: row + 1, damage: PEA_DAMAGE }, rear: false });
        }
    }
    proof {
        let o = *old(plant);
        if kind == PlantKind::Threepeater {
            let front = shots@[0];
            assert(shots@ == volley(kind, row));
        }
    }
    shots
}

/// Law: a shooter aims down its own lane, and a Threepeater down the lanes
/// next to it as well: it has a target exactly when some zombie ahead of it
/// stands in its row, or, for a Threepeater, one row above or below.
/// With every zombie ahead of a single-lane shooter in another row,
/// `fire_step` therefore fires nothing.
pub proof fn lemma_shooters_aim_down_their_lanes(
    kind: PlantKind,
    prow: int,
    zombies: Seq<(usize, bool)>,
)
    ensures
        has_target(kind, prow, zombies) <==> exists|i: int|
            0 <= i < zombies.len() && zombies[i].1 && (zombies[i].0 == prow || (kind
                == PlantKind::Threepeater && (zombies[i].0 == prow - 1 || zombies[i].0 == prow
                + 1))),
        kind != PlantKind::Threepeater && (forall|i: int|
            0 <= i < zombies.len() && zombies[i].1 ==> zombies[i].0 != prow) ==> !has_target(
            kind,
            prow,
            zombies,
        ),
{
    if has_target(kind, prow, zombies) {
        let i = choose|i: int|
            0 <= i < zombies.len() && lane_covered(kind, prow, #[trigger] zombies[i].0 as int)
                && zombies[i].1;
        assert(zombies[i].1 && (zombies[i].0 == prow || (kind == PlantKind::Threepeater && (
        zombies[i].0 == prow - 1 || zombies[i].0 == prow + 1))));
    }
    if exists|i: int|
        0 <= i < zombies.len() && zombies[i].1 && (zombies[i].0 == prow || (kind
            == PlantKind::Threepeater && (zombies[i].0 == prow - 1 || zombies[i].0 == prow + 1))) {
        let i = choose|i: int|
            0 <= i < zombies.len() && zombies[i].1 && (zombies[i].0 == prow || (kind
                == PlantKind::Threepeater && (zombies[i].0 == prow - 1 || zombies[i].0 == prow
                + 1)));
        assert(lane_covered(kind, prow, zombies[i].0 as int));
    }
}

/// Law: what a volley holds. Every pea does the plain pea damage. A
/// Peashooter or Snow Pea fires one pea down its own row (a snow pea from
/// the Snow Pea, a normal one otherwise); a Repeater two normal peas down
/// its row, the second from the rear; a Threepeater one normal pea down
/// each lawn row from the one above to the one below its own.
pub proof fn lemma_volley_rows(kind: PlantKind, row: usize)
    requires
        is_shooter(kind),
        row < LAWN_ROWS,
    ensures
        forall|i: int| 0 <= i < volley(kind, row).len() ==> #[trigger] volley(kind, row)[i].pea.damage
            == PEA_DAMAGE,
        kind != PlantKind::Threepeater ==> forall|i: int|
            0 <= i < volley(kind, row).len() ==> #[trigger] volley(kind, row)[i].pea.row == row,
        kind == PlantKind::Peashooter || kind == PlantKind::SnowPea ==> volley(kind, row).len() == 1
            && !volley(kind, row)[0].rear && (volley(kind, row)[0].pea.kind == PeaKind::Snow
            <==> kind == PlantKind::SnowPea),
        kind == PlantKind::Repeater ==> volley(kind, row).len() == 2 && volley(kind, row)[0].pea.kind
            == PeaKind::Normal && volley(kind, row)[1].pea.kind == PeaKind::Normal && !volley(
            kind,
            row,
        )[0].rear && volley(kind, row)[1].rear,
        kind == PlantKind::Threepeater ==> {
            &&& volley(kind, row).len() == (if row == 0 || row + 1 == LAWN_ROWS {
                2int
            } else {
                3int
            })
            &&& forall|i: int|
                0 <= i < volley(kind, row).len() ==> {
                    &&& -1 <= #[trigger] volley(kind, row)[i].pea.row - row <= 1
                    &&& volley(kind, row)[i].pea.row < LAWN_ROWS
                    &&& volley(kind, row)[i].pea.kind == PeaKind::Normal
                    &&& !volley(kind, row)[i].rear
                }
            &&& forall|i: int, j: int|
                0 <= i < j < volley(kind, row).len() ==> volley(kind, row)[i].pea.row != volley(
                    kind,
                    row,
                )[j].pea.row
        },
{
}

/// A normal pea passing through a Torchwood catches fire (double damage);
/// snow and fire peas pass unchanged.
pub fn light_pea(pea: &mut PeaProjectile, passes_torchwood: bool)
    ensures
        final(pea).row == old(pea).row,
        passes_torchwood && old(pea).kind == PeaKind::Normal ==> final(pea).kind == PeaKind::Fire
            && final(pea).damage == FIRE_PEA_DAMAGE,
        !(passes_torchwood && old(pea).kind == PeaKind::Normal) ==> *final(pea) == *old(pea),
{
    if passes_torchwood && pea.kind == PeaKind::Normal {
        pea.kind = PeaKind::Fire;
        pea.damage = FIRE_PEA_DAMAGE;
    }
}

/// What a pea did to the zombie it struck.
#[derive(Clone, Copy, Debug, PartialEq, Eq, Structural)]
pub enum PeaHit {
    /// The zombie died; it plays its fall.
    Killed(Dying),
    /// A snow pea chilled the zombie (refreshing any chill).
    Chilled(Chilled),
    /// Damage only.
    Hurt,
}

/// A pea strikes a zombie: its damage lands; a lethal hit starts the fall;
/// a surviving zombie struck by a snow pea is chilled.
pub fn pea_hits(zombie: &mut Zombie, pea: &PeaProjectile) -> (h: PeaHit)
    requires
        old(zombie).damage_fits(pea.damage as int),
    ensures
        *final(zombie) == old(zombie).damaged(pea.damage as int),
        final(zombie).body_hp <= 0 ==> h == PeaHit::Killed(Dying { remaining_ticks: DYING_TICKS }),
        final(zombie).body_hp > 0 && pea.kind == PeaKind::Snow ==> h == PeaHit::Chilled(
            Chilled { remaining_ticks: SNOW_PEA_CHILL_TICKS },
        ),
        final(zombie).body_hp > 0 && pea.kind != PeaKind::Snow ==> h == PeaHit::Hurt,
{
    if zombie.take_damage(pea.damage) {
        PeaHit::Killed(Dying { remaining_ticks: DYING_TICKS })
    } else if pea.kind == PeaKind::Snow {
        PeaHit::Chilled(Chilled { remaining_ticks: SNOW_PEA_CHILL_TICKS })
    } else {
        PeaHit::Hurt
    }
}

/// Chebyshev distance between two lawn cells is at most `radius`.
pub open spec fn within(c1: int, r1: int, c2: int, r2: int, radius: int) -> bool {
    -radius <= c1 - c2 <= radius && -radius <= r1 - r2 <= radius
}

/// The zombie's cell `at` (`None` off the grid) lies within `radius`
/// cells of (`col`, `row`).
pub open spec fn in_blast(at: Option<(usize, usize)>, col: int, row: int, radius: int) -> bool {
    match at {
        Some((c, r)) => within(c as int, r as int, col, row, radius),
        None => false,
    }
}

/// A blast centred on cell (`col`, `row`) reaching `radius` cells hits a
/// zombie standing in cell `at` (`None` when it stands off the grid);
/// hypnotized zombies are spared when `spare_hypnotized`. Returns true
/// when the zombie is destroyed (blasts remove their kills at once).
pub fn blast_hits(
    zombie: &mut Zombie,
    at: Option<(usize, usize)>,
    col: usize,
    row: usize,
    radius: usize,
    damage: i32,
    spare_hypnotized: bool,
) -> (destroyed: bool)
    requires
        old(zombie).damage_fits(damage as int),
    ensures
        ({
            let hit = in_blast(at, col as int, row as int, radius as int) && !(spare_hypnotized
                && old(zombie).hypnotized);
            &&& hit ==> *final(zombie) == old(zombie).damaged(damage as int) && destroyed == (final(zombie).body_hp <= 0)
            &&& !hit ==> *final(zombie) == *old(zombie) && !destroyed
        }),
{
    if spare_hypnotized && zombie.hypnotized {
        return false;
    }
    match at {
        None => false,
        Some((zc, zr)) => {
            let dc = if zc >= col { zc - col } else { col - zc };
            let dr = if zr >= row { zr - row } else { row - zr };
            if dc <= radius && dr <= radius {
                zombie.take_damage(damage)
            } else {
                false
            }
        },
    }
}

/// A Jalapeno's fire hits every non-hypnotized zombie in its row. Returns
/// true when the zombie is destroyed.
pub fn row_fire_hits(zombie: &mut Zombie, row: usize, damage: i32) -> (destroyed: bool)
    requires
        old(zombie).damage_fits(damage as int),
    ensures
        old(zombie).row == row && !old(zombie).hypnotized ==> *final(zombie) == old(zombie).damaged(damage as int) && destroyed == (final(zombie).body_hp <= 0),
        !(old(zombie).row == row && !old(zombie).hypnotized) ==> *final(zombie) == *old(zombie)
            && !destroyed,
{
    if zombie.row == row && !zombie.hypnotized {
        zombie.take_damage(damage)
    } else {
        false
    }
}

/// A Cherry Bomb goes off over cell (`col`, `row`): a zombie standing
/// within one cell of it (the 3x3 square, hypnotized or not) takes its
/// damage. Returns true when the zombie is destroyed.
pub fn cherry_blast(zombie: &mut Zombie, at: Option<(usize, usize)>, col: usize, row: usize) -> (destroyed: bool)
    requires
        old(zombie).damage_fits(CHERRY_BOMB_DAMAGE as int),
    ensures
        in_blast(at, col as int, row as int, 1) ==> *final(zombie) == old(zombie).damaged(
            CHERRY_BOMB_DAMAGE as int,
        ) && destroyed == (final(zombie).body_hp <= 0),
        !in_blast(at, col as int, row as int, 1) ==> *final(zombie) == *old(zombie) && !destroyed,
{
    blast_hits(zombie, at, col, row, 1, CHERRY_BOMB_DAMAGE, false)
}

/// A Doom-shroom goes off over cell (`col`, `row`): a non-hypnotized
/// zombie standing within two cells of it (the 5x5 square) takes its
/// damage. Returns true when the zombie is destroyed.
pub fn doom_blast(zombie: &mut Zombie, at: Option<(usize, usize)>, col: usize, row: usize) -> (destroyed: bool)
    requires
        old(zombie).damage_fits(DOOM_SHROOM_DAMAGE as int),
    ensures
        in_blast(at, col as int, row as int, 2) && !old(zombie).hypnotized ==> *final(zombie)
            == old(zombie).damaged(DOOM_SHROOM_DAMAGE as int) && destroyed == (final(zombie).body_hp
            <= 0),
        !(in_blast(at, col as int, row as int, 2) && !old(zombie).hypnotized) ==> *final(zombie)
            == *old(zombie) && !destroyed,
{
    blast_hits(zombie, at, col, row, 2, DOOM_SHROOM_DAMAGE, true)
}

/// A Jalapeno burns lane `row`: a non-hypnotized zombie in that lane
/// takes its damage. Returns true when the zombie is destroyed.
pub fn jalapeno_fire(zombie: &mut Zombie, row: usize) -> (destroyed: bool)
    requires
        old(zombie).damage_fits(JALAPENO_DAMAGE as int),
    ensures
        old(zombie).row == row && !old(zombie).hypnotized ==> *final(zombie) == old(zombie).damaged(
            JALAPENO_DAMAGE as int,
        ) && destroyed == (final(zombie).body_hp <= 0),
        !(old(zombie).row == row && !old(zombie).hypnotized) ==> *final(zombie) == *old(zombie)
            && !destroyed,
{
    row_fire_hits(zombie, row, JALAPENO_DAMAGE)
}

/// A Spikeweed pricks a zombie on it (once per hit interval, which
/// `SpikeweedState::step` keeps): the spikes' damage. Returns true when
/// the zombie is destroyed.
pub fn spike_hit(zombie: &mut Zombie) -> (destroyed: bool)
    requires
        old(zombie).damage_fits(SPIKEWEED_DAMAGE as int),
    ensures
        *final(zombie) == old(zombie).damaged(SPIKEWEED_DAMAGE as int),
        destroyed == (final(zombie).body_hp <= 0),
{
    zombie.take_damage(SPIKEWEED_DAMAGE)
}

/// A Squash lands on the zombie it jumped at: the squash's damage; when
/// that kills, the squash is spent and its cell emptied. Returns true
/// when the zombie is destroyed.
pub fn squash_hit(board: &mut Board, squash: &Plant, zombie: &mut Zombie) -> (destroyed: bool)
    requires
        old(board).wf(),
        on_lawn(squash.col as int, squash.row as int),
        old(zombie).damage_fits(SQUASH_DAMAGE as int),
    ensures
        *final(zombie) == old(zombie).damaged(SQUASH_DAMAGE as int),
        destroyed == (final(zombie).body_hp <= 0),
        final(board).wf(),
        final(board).cells@ == if destroyed {
            old(board).cells@.update(cell_index(squash.col as int, squash.row as int), None)
        } else {
            old(board).cells@
        },
        final(board).sun == old(board).sun,
        final(board).sun_collected_total == old(board).sun_collected_total,
        final(board).sky_sun_timer == old(board).sky_sun_timer,
        final(board).stage == old(board).stage,
{
    let destroyed = zombie.take_damage(SQUASH_DAMAGE);
    if destroyed {
        board.set_cell(squash.col, squash.row, None);
    }
    destroyed
}

/// Law: a Cherry Bomb blast destroys any freshly spawned zombie in range,
/// whatever its armor (1800 damage beats the 1370 of a buckethead).
pub proof fn lemma_cherry_kills_every_kind(z: Zombie)
    requires
        z.body_hp == crate::constants::ZOMBIE_BODY_HP,
        z.armor_hp == crate::zombie::spec_armor_of(z.kind),
    ensures
        z.damage_fits(CHERRY_BOMB_DAMAGE as int),
        z.damaged(CHERRY_BOMB_DAMAGE as int).body_hp <= 0,
{
}

/// Offsets of the 5x5 doom square around (`col`, `row`), row by row.
pub open spec fn doom_square(col: int, row: int) -> Seq<(int, int)> {
    Seq::new(25, |k: int| (col + k % 5 - 2, row + k / 5 - 2))
}

/// Occupants a doom blast removes from the board, in row-major order.
pub open spec fn doom_taken(cells: Seq<Option<u64>>, square: Seq<(int, int)>) -> Seq<u64>
    decreases square.len(),
{
    if square.len() == 0 {
        Seq::empty()
    } else {
        let rest = doom_taken(cells, square.drop_last());
        let (c, r) = square.last();
        if on_lawn(c, r) && cells[cell_index(c, r)] is Some {
            rest.push(cells[cell_index(c, r)]->0)
        } else {
            rest
        }
    }
}

/// Board after a doom blast: the square is emptied.
pub open spec fn doom_cleared(cells: Seq<Option<u64>>, col: int, row: int) -> Seq<Option<u64>> {
    Seq::new(
        cells.len(),
        |i: int|
            if within(i % 9, i / 9, col, row, 2) {
                None
            } else {
                cells[i]
            },
    )
}

/// Position of cell `i` (row-major) within the doom square around
/// (`col`, `row`), counting row by row.
pub open spec fn square_pos(i: int, col: int, row: int) -> int {
    (i / 9 - row + 2) * 5 + (i % 9 - col + 2)
}

proof fn lemma_cell_index_parts(c: int, r: int)
    requires
        0 <= c < 9,
        0 <= r,
    ensures
        cell_index(c, r) % 9 == c,
        cell_index(c, r) / 9 == r,
{
    assert((r * 9 + c) % 9 == c && (r * 9 + c) / 9 == r) by (nonlinear_arith)
        requires
            0 <= c < 9,
            0 <= r,
    ;
}

proof fn lemma_square_entry(col: int, row: int, k: int, i: int)
    requires
        0 <= k < 25,
        0 <= i,
    ensures
        (i % 9 == col + k % 5 - 2 && i / 9 == row + k / 5 - 2) <==> (within(
            i % 9,
            i / 9,
            col,
            row,
            2,
        ) && square_pos(i, col, row) == k),
        within(i % 9, i / 9, col, row, 2) ==> 0 <= square_pos(i, col, row) < 25,
{
    let a = i / 9 - row + 2;
    let b = i % 9 - col + 2;
    assert(k == (k / 5) * 5 + k % 5 && 0 <= k % 5 < 5 && 0 <= k / 5 < 5) by (nonlinear_arith)
        requires
            0 <= k < 25,
    ;
    assert((0 <= a <= 4 && 0 <= b <= 4 && a * 5 + b == k) ==> (a == k / 5 && b == k % 5))
        by (nonlinear_arith)
        requires
            0 <= k < 25,
    ;
}

proof fn lemma_same_cell(i: int, j: int)
    requires
        0 <= i,
        0 <= j,
        i % 9 == j % 9,
        i / 9 == j / 9,
    ensures
        i == j,
{
    assert(i == (i / 9) * 9 + i % 9 && j == (j / 9) * 9 + j % 9) by (nonlinear_arith)
        requires
            0 <= i,
            0 <= j,
    ;
}

/// A Doom-shroom detonation on the board: every plant (and crater) in the
/// 5x5 square around it is removed, then a crater with id `crater_id`
/// fills the shroom's own cell. Returns the removed occupants, row by row.
pub fn doom_clear(board: &mut Board, col: usize, row: usize, crater_id: u64) -> (taken: Vec<u64>)
    requires
        old(board).wf(),
        on_lawn(col as int, row as int),
    ensures
        final(board).wf(),
        taken@ == doom_taken(old(board).cells@, doom_square(col as int, row as int)),
        final(board).cells@ == doom_cleared(old(board).cells@, col as int, row as int).update(
            cell_index(col as int, row as int),
            Some(crater_id),
        ),
        final(board).sun == old(board).sun,
        final(board).stage == old(board).stage,
        final(board).sky_sun_timer == old(board).sky_sun_timer,
        final(board).sun_collected_total == old(board).sun_collected_total,
{
    let ghost sq = doom_square(col as int, row as int);
    let ghost orig = board.cells@;
    let ghost ci = col as int;
    let ghost ri = row as int;
    let mut taken: Vec<u64> = Vec::new();
    let mut k: usize = 0;
    while k < 25
        invariant
            k <= 25,
            board.wf(),
            sq == doom_square(ci, ri),
            on_lawn(ci, ri),
            ci == col,
            ri == row,
            orig.len() == 45,
            taken@ == doom_taken(orig, sq.take(k as int)),
            forall|i: int|
                0 <= i < 45 ==> #[trigger] board.cells@[i] == if within(i % 9, i / 9, ci, ri, 2)
                    && square_pos(i, ci, ri) < k {
                    None
                } else {
                    orig[i]
                },
            board.sun == old(board).sun,
            board.stage == old(board).stage,
            board.sky_sun_timer == old(board).sky_sun_timer,
            board.sun_collected_total == old(board).sun_collected_total,
        decreases 25 - k,
    {
        let r: i64 = row as i64 + (k / 5) as i64 - 2;
        let c: i64 = col as i64 + (k % 5) as i64 - 2;
        let ghost kk = k as int;
        assert(sq.take(kk + 1).drop_last() == sq.take(kk));
        assert(sq[kk] == (c as int, r as int));
        let ghost before = board.cells@;
        if r >= 0 && c >= 0 && r < LAWN_ROWS as i64 && c < LAWN_COLS as i64 {
            let rr = r as usize;
            let cc = c as usize;
            let ghost i0 = cell_index(cc as int, rr as int);
            proof {
                lemma_cell_index_parts(cc as int, rr as int);
                lemma_square_entry(ci, ri, kk, i0);
                assert(before[i0] == orig[i0]);
            }
            match board.take_cell(cc, rr) {
                Some(id) => {
                    taken.push(id);
                },
                None => {},
            }
            proof {
                assert forall|i: int| 0 <= i < 45 implies #[trigger] board.cells@[i] == if within(
                    i % 9,
                    i / 9,
                    ci,
                    ri,
                    2,
                ) && square_pos(i, ci, ri) < kk + 1 {
                    None
                } else {
                    orig[i]
                } by {
                    lemma_square_entry(ci, ri, kk, i);
                    if i != i0 && within(i % 9, i / 9, ci, ri, 2) && square_pos(i, ci, ri) == kk {
                        lemma_same_cell(i, i0);
                    }
                }
            }
        } else {
            proof {
                assert forall|i: int| 0 <= i < 45 implies #[trigger] board.cells@[i] == if within(
                    i % 9,
                    i / 9,
                    ci,
                    ri,
                    2,
                ) && square_pos(i, ci, ri) < kk + 1 {
                    None
                } else {
                    orig[i]
                } by {
                    lemma_square_entry(ci, ri, kk, i);
                    assert(0 <= i % 9 < 9 && 0 <= i / 9 < 5);
                }
            }
        }
        k = k + 1;
    }
    assert(sq.take(25) == sq);
    proof {
        assert forall|i: int| 0 <= i < 45 implies #[trigger] board.cells@[i] == doom_cleared(
            orig,
            ci,
            ri,
        )[i] by {
            lemma_square_entry(ci, ri, 0, i);
        }
        assert(board.cells@ == doom_cleared(orig, ci, ri));
    }
    board.set_cell(col, row, Some(crater_id));
    taken
}


/// Status effects a zombie carries.
#[derive(Clone, Copy, Debug, PartialEq, Eq, Structural)]
pub struct ZombieStatus {
    pub chilled: Option<Chilled>,
    pub frozen: Option<Frozen>,
}

/// What the status step leaves for the rest of the zombie's tick.
#[derive(Clone, Copy, Debug, PartialEq, Eq, Structural)]
pub struct StatusTick {
    /// Still chilled this tick (slower walk, slower bites).
    pub chilled_now: bool,
    /// Free to walk or eat this tick (not frozen, and time moved).
    pub acts: bool,
}

/// Chill left after `frame_ticks` (never below zero).
pub open spec fn chill_left(c: Chilled, frame_ticks: i32) -> int {
    if c.remaining_ticks - frame_ticks > 0 {
        c.remaining_ticks - frame_ticks
    } else {
        0
    }
}

/// The status step: a chill runs down and ends at zero; a freeze runs down
/// and holds the zombie until it thaws, when the chill it carries (if any)
/// takes over. Nothing moves when no time passed.
pub open spec fn spec_status_tick(s: ZombieStatus, frame_ticks: i32) -> (ZombieStatus, StatusTick) {
    if frame_ticks <= 0 {
        (s, StatusTick { chilled_now: false, acts: false })
    } else {
        let (chilled, chilled_now) = match s.chilled {
            Some(c) => if chill_left(c, frame_ticks) > 0 {
                (Some(Chilled { remaining_ticks: chill_left(c, frame_ticks) as i32 }), true)
            } else {
                (None, false)
            },
            None => (None, false),
        };
        match s.frozen {
            Some(f) => if f.remaining_ticks - frame_ticks <= 0 {
                (
                    ZombieStatus {
                        chilled: if f.chill_after_ticks > 0 {
                            Some(Chilled { remaining_ticks: f.chill_after_ticks })
                        } else {
                            chilled
                        },
                        frozen: None,
                    },
                    StatusTick { chilled_now, acts: true },
                )
            } else {
                (
                    ZombieStatus {
                        chilled,
                        frozen: Some(
                            Frozen {
                                remaining_ticks: (f.remaining_ticks - frame_ticks) as i32,
                                chill_after_ticks: f.chill_after_ticks,
                            },
                        ),
                    },
                    StatusTick { chilled_now, acts: false },
                )
            },
            None => (ZombieStatus { chilled, frozen: None }, StatusTick { chilled_now, acts: true }),
        }
    }
}

impl ZombieStatus {
    /// No status effect.
    pub fn new() -> (s: ZombieStatus)
        ensures
            s.chilled is None,
            s.frozen is None,
    {
        ZombieStatus { chilled: None, frozen: None }
    }

    /// The countdowns fit `i32` for this step.
    pub open spec fn tick_fits(&self, frame_ticks: i32) -> bool {
        &&& (self.chilled matches Some(c) ==> c.remaining_ticks - frame_ticks >= i32::MIN)
        &&& (self.frozen matches Some(f) ==> f.remaining_ticks - frame_ticks >= i32::MIN)
    }

    /// One status step (see `spec_status_tick`).
    pub fn tick(&mut self, frame_ticks: i32) -> (t: StatusTick)
        requires
            old(self).tick_fits(frame_ticks),
        ensures
            (*final(self), t) == spec_status_tick(*old(self), frame_ticks),
    {
        if frame_ticks <= 0 {
            return StatusTick { chilled_now: false, acts: false };
        }
        let mut chilled_now = false;
        match self.chilled {
            Some(c) => {
                let left = c.remaining_ticks - frame_ticks;
                if left > 0 {
                    self.chilled = Some(Chilled { remaining_ticks: left });
                    chilled_now = true;
                } else {
                    self.chilled = None;
                }
            },
            None => {},
        }
        match self.frozen {
            Some(f) => {
                let left = f.remaining_ticks - frame_ticks;
                if left <= 0 {
                    self.frozen = None;
                    if f.chill_after_ticks > 0 {
                        self.chilled = Some(Chilled { remaining_ticks: f.chill_after_ticks });
                    }
                    StatusTick { chilled_now, acts: true }
                } else {
                    self.frozen = Some(
                        Frozen { remaining_ticks: left, chill_after_ticks: f.chill_after_ticks },
                    );
                    StatusTick { chilled_now, acts: false }
                }
            },
            None => StatusTick { chilled_now, acts: true },
        }
    }

    /// An Ice-shroom's blast: a non-hypnotized zombie loses any chill and
    /// freezes, to be chilled again when it thaws; hypnotized ones are spared.
    pub fn freeze(&mut self, hypnotized: bool)
        ensures
            hypnotized ==> *final(self) == *old(self),
            !hypnotized ==> final(self).chilled is None && final(self).frozen == Some(
                Frozen {
                    remaining_ticks: ICE_SHROOM_FREEZE_TICKS,
                    chill_after_ticks: ICE_SHROOM_CHILL_TICKS,
                },
            ),
    {
        if !hypnotized {
            self.chilled = None;
            self.frozen = Some(
                Frozen {
                    remaining_ticks: ICE_SHROOM_FREEZE_TICKS,
                    chill_after_ticks: ICE_SHROOM_CHILL_TICKS,
                },
            );
        }
    }
}

/// The lane a zombie leaves to after biting Garlic: one lane up (`up`) or
/// down, clamped to the lawn; when the clamp leaves it in place it takes
/// the only neighbouring lane instead.
pub open spec fn spec_garlic_row(row: int, up: bool) -> int {
    let next = if up {
        if row == 0 {
            0
        } else {
            row - 1
        }
    } else if row + 1 < LAWN_ROWS {
        row + 1
    } else {
        LAWN_ROWS - 1
    };
    if next == row {
        if row == 0 {
            1
        } else {
            row - 1
        }
    } else {
        next
    }
}

/// The lane change off Garlic (see `spec_garlic_row`).
pub fn garlic_new_row(row: usize, up: bool) -> (r: usize)
    requires
        row < usize::MAX,
    ensures
        r == spec_garlic_row(row as int, up),
        row < LAWN_ROWS ==> r < LAWN_ROWS && r != row,
{
    let next = if up {
        if row == 0 {
            0
        } else {
            row - 1
        }
    } else if row + 1 < LAWN_ROWS {
        row + 1
    } else {
        LAWN_ROWS - 1
    };
    if next == row {
        if row == 0 {
            1
        } else {
            row - 1
        }
    } else {
        next
    }
}

/// What a zombie standing at a plant did this tick.
#[derive(Clone, Copy, Debug, PartialEq, Eq, Structural)]
pub enum BiteOutcome {
    /// Still chewing: the bite is not ready.
    Chewing,
    /// It stepped on an armed Potato Mine, which blew (and is gone);
    /// `killed` when the blast killed the zombie, which then falls.
    MineBlast { killed: bool },
    /// It bit a Hypno-shroom (now gone) and turned.
    Hypnotized,
    /// It bit Garlic and left for lane `to_row`.
    Diverted { to_row: usize, plant_destroyed: bool },
    /// It bit the plant.
    Bit { plant_destroyed: bool },
}

/// Eat cooldown after `frame_ticks` (never below zero).
pub open spec fn eat_cooldown_after(cd: i32, frame_ticks: i32) -> int {
    if cd - frame_ticks > 0 {
        cd - frame_ticks
    } else {
        0
    }
}

/// The counters of a bite stay within `i32`: the cooldown's run-down, the
/// mine's damage where an armed mine blows, the bite off a plant that can
/// be bitten.
pub open spec fn bite_fits(z: Zombie, p: Plant, mine_armed: bool, frame_ticks: i32) -> bool {
    &&& z.row < usize::MAX
    &&& z.eat_cooldown_remaining - frame_ticks >= i32::MIN
    &&& z.eat_cooldown_remaining - frame_ticks <= i32::MAX
    &&& (p.kind == PlantKind::PotatoMine && mine_armed ==> z.damage_fits(POTATO_MINE_DAMAGE as int))
    &&& (!(p.kind == PlantKind::PotatoMine && mine_armed) && p.kind != PlantKind::HypnoShroom
        ==> p.hp - ZOMBIE_EAT_DAMAGE >= i32::MIN)
}

/// What one tick of eating does: zombie `z0` blocked by plant `p0` ends as
/// `z1`, the plant as `p1`, with outcome `out`. The eat cooldown runs
/// down; an armed Potato Mine blows under the zombie first; a ready bite
/// turns it on a Hypno-shroom, diverts it off Garlic to one of the two
/// lanes of `spec_garlic_row`, or takes a bite of anything else, and
/// restarts the cooldown (twice as long while chilled).
pub open spec fn spec_bite(
    z0: Zombie,
    p0: Plant,
    mine_armed: bool,
    chilled_now: bool,
    frame_ticks: i32,
    z1: Zombie,
    p1: Plant,
    out: BiteOutcome,
) -> bool {
    let cd = eat_cooldown_after(z0.eat_cooldown_remaining, frame_ticks);
    let bitten = Plant { hp: (p0.hp - ZOMBIE_EAT_DAMAGE) as i32, ..p0 };
    if p0.kind == PlantKind::PotatoMine && mine_armed {
        &&& z1 == Zombie { eat_cooldown_remaining: cd as i32, ..z0 }.damaged(
            POTATO_MINE_DAMAGE as int,
        )
        &&& out == BiteOutcome::MineBlast { killed: z1.body_hp <= 0 }
        &&& p1 == p0
    } else if cd > 0 {
        &&& z1 == Zombie { eat_cooldown_remaining: cd as i32, ..z0 }
        &&& out == BiteOutcome::Chewing
        &&& p1 == p0
    } else if p0.kind == PlantKind::HypnoShroom {
        &&& z1 == Zombie {
            eat_cooldown_remaining: ZOMBIE_EAT_INTERVAL_TICKS,
            hypnotized: true,
            ..z0
        }
        &&& out == BiteOutcome::Hypnotized
        &&& p1 == p0
    } else if p0.kind == PlantKind::Garlic {
        &&& out matches BiteOutcome::Diverted { to_row, plant_destroyed }
        &&& (to_row == spec_garlic_row(z0.row as int, true) || to_row == spec_garlic_row(
            z0.row as int,
            false,
        ))
        &&& plant_destroyed == (bitten.hp <= 0)
        &&& z1 == Zombie { eat_cooldown_remaining: ZOMBIE_EAT_INTERVAL_TICKS, row: to_row, ..z0 }
        &&& p1 == bitten
    } else {
        &&& out == BiteOutcome::Bit { plant_destroyed: bitten.hp <= 0 }
        &&& z1 == Zombie {
            eat_cooldown_remaining: if chilled_now {
                (ZOMBIE_EAT_INTERVAL_TICKS * 2) as i32
            } else {
                ZOMBIE_EAT_INTERVAL_TICKS
            },
            ..z0
        }
        &&& p1 == bitten
    }
}

/// A zombie blocked by `plant` eats (see `spec_bite`). Which of the two
/// Garlic lanes it takes is a fair coin's.
pub fn zombie_bite(
    zombie: &mut Zombie,
    plant: &mut Plant,
    mine_armed: bool,
    chilled_now: bool,
    frame_ticks: i32,
) -> (out: BiteOutcome)
    requires
        bite_fits(*old(zombie), *old(plant), mine_armed, frame_ticks),
    ensures
        spec_bite(
            *old(zombie),
            *old(plant),
            mine_armed,
            chilled_now,
            frame_ticks,
            *final(zombie),
            *final(plant),
            out,
        ),
{
    let left = zombie.eat_cooldown_remaining - frame_ticks;
    zombie.eat_cooldown_remaining = if left > 0 {
        left
    } else {
        0
    };
    if plant.kind == PlantKind::PotatoMine && mine_armed {
        let killed = zombie.take_damage(POTATO_MINE_DAMAGE);
        return BiteOutcome::MineBlast { killed };
    }
    if zombie.eat_cooldown_remaining != 0 {
        return BiteOutcome::Chewing;
    }
    if plant.kind == PlantKind::HypnoShroom {
        zombie.hypnotized = true;
        zombie.eat_cooldown_remaining = ZOMBIE_EAT_INTERVAL_TICKS;
        return BiteOutcome::Hypnotized;
    }
    if plant.kind == PlantKind::Garlic {
        plant.hp = plant.hp - ZOMBIE_EAT_DAMAGE;
        zombie.eat_cooldown_remaining = ZOMBIE_EAT_INTERVAL_TICKS;
        let up = coin_flip();
        let to_row = garlic_new_row(zombie.row, up);
        zombie.row = to_row;
        return BiteOutcome::Diverted { to_row, plant_destroyed: plant.hp <= 0 };
    }
    plant.hp = plant.hp - ZOMBIE_EAT_DAMAGE;
    zombie.eat_cooldown_remaining = if chilled_now {
        ZOMBIE_EAT_INTERVAL_TICKS * 2
    } else {
        ZOMBIE_EAT_INTERVAL_TICKS
    };
    BiteOutcome::Bit { plant_destroyed: plant.hp <= 0 }
}

/// Whether a bite leaves the plant's cell empty: the mine that blew, the
/// Hypno-shroom that was eaten, or a plant eaten down to zero hit points.
pub open spec fn spec_removes_plant(out: BiteOutcome) -> bool {
    match out {
        BiteOutcome::Chewing => false,
        BiteOutcome::MineBlast { .. } => true,
        BiteOutcome::Hypnotized => true,
        BiteOutcome::Diverted { plant_destroyed, .. } => plant_destroyed,
        BiteOutcome::Bit { plant_destroyed } => plant_destroyed,
    }
}

/// Whether a bite leaves the plant's cell empty (see `spec_removes_plant`).
pub fn removes_plant(out: BiteOutcome) -> (r: bool)
    ensures
        r == spec_removes_plant(out),
{
    match out {
        BiteOutcome::Chewing => false,
        BiteOutcome::MineBlast { .. } => true,
        BiteOutcome::Hypnotized => true,
        BiteOutcome::Diverted { plant_destroyed, .. } => plant_destroyed,
        BiteOutcome::Bit { plant_destroyed } => plant_destroyed,
    }
}

/// A zombie eats the plant in its way on the lawn: the bite of
/// `zombie_bite`; a plant the bite removes (see `spec_removes_plant`)
/// leaves its cell empty, and nothing else on the board changes.
pub fn zombie_bite_on_board(
    board: &mut Board,
    zombie: &mut Zombie,
    plant: &mut Plant,
    mine_armed: bool,
    chilled_now: bool,
    frame_ticks: i32,
) -> (out: BiteOutcome)
    requires
        old(board).wf(),
        on_lawn(old(plant).col as int, old(plant).row as int),
        bite_fits(*old(zombie), *old(plant), mine_armed, frame_ticks),
    ensures
        spec_bite(
            *old(zombie),
            *old(plant),
            mine_armed,
            chilled_now,
            frame_ticks,
            *final(zombie),
            *final(plant),
            out,
        ),
        final(board).wf(),
        final(board).cells@ == if spec_removes_plant(out) {
            old(board).cells@.update(cell_index(old(plant).col as int, old(plant).row as int), None)
        } else {
            old(board).cells@
        },
        final(board).sun == old(board).sun,
        final(board).sun_collected_total == old(board).sun_collected_total,
        final(board).sky_sun_timer == old(board).sky_sun_timer,
        final(board).stage == old(board).stage,
{
    let out = zombie_bite(zombie, plant, mine_armed, chilled_now, frame_ticks);
    if removes_plant(out) {
        board.set_cell(plant.col, plant.row, None);
    }
    out
}

/// Walking speed while chilled, in percent of the normal pace.
pub const CHILLED_SPEED_PERCENT: u32 = 50;

/// A zombie with nothing in its way walks: its bite starts over, and it
/// walks at half pace while chilled. Returns the pace in percent.
pub fn zombie_walk_step(zombie: &mut Zombie, chilled_now: bool) -> (pace: u32)
    ensures
        *final(zombie) == (Zombie { eat_cooldown_remaining: 0, ..*old(zombie) }),
        pace == if chilled_now {
            CHILLED_SPEED_PERCENT
        } else {
            100
        },
{
    zombie.eat_cooldown_remaining = 0;
    if chilled_now {
        CHILLED_SPEED_PERCENT
    } else {
        100
    }
}

/// One bite in a hypnotized brawl: the attacker's cooldown runs down; when
/// it is ready, it restarts and the victim takes a bite. Returns true when
/// the bite killed the victim (which then falls).
pub fn hypno_bite(attacker: &mut Zombie, victim: &mut Zombie, frame_ticks: i32) -> (killed: bool)
    requires
        old(attacker).eat_cooldown_remaining - frame_ticks >= i32::MIN,
        old(attacker).eat_cooldown_remaining - frame_ticks <= i32::MAX,
        old(victim).damage_fits(ZOMBIE_EAT_DAMAGE as int),
    ensures
        ({
            let cd = eat_cooldown_after(old(attacker).eat_cooldown_remaining, frame_ticks);
            if cd > 0 {
                &&& *final(attacker) == Zombie { eat_cooldown_remaining: cd as i32, ..*old(attacker) }
                &&& *final(victim) == *old(victim)
                &&& !killed
            } else {
                &&& *final(attacker) == Zombie {
                    eat_cooldown_remaining: ZOMBIE_EAT_INTERVAL_TICKS,
                    ..*old(attacker)
                }
                &&& *final(victim) == old(victim).damaged(ZOMBIE_EAT_DAMAGE as int)
                &&& killed == (final(victim).body_hp <= 0)
            }
        }),
{
    let left = attacker.eat_cooldown_remaining - frame_ticks;
    attacker.eat_cooldown_remaining = if left > 0 {
        left
    } else {
        0
    };
    if attacker.eat_cooldown_remaining > 0 {
        return false;
    }
    attacker.eat_cooldown_remaining = ZOMBIE_EAT_INTERVAL_TICKS;
    victim.take_damage(ZOMBIE_EAT_DAMAGE)
}

impl ChomperState {
    /// A ready Chomper swallows the zombie in reach (a bite no zombie
    /// survives from full health) and starts chewing. Returns true when
    /// the zombie is gone.
    pub fn chomp(&mut self, zombie: &mut Zombie) -> (destroyed: bool)
        requires
            old(zombie).damage_fits(CHOMPER_BITE_DAMAGE as int),
        ensures
            final(self).chewing_timer == CHOMPER_CHEW_TICKS,
            *final(zombie) == old(zombie).damaged(CHOMPER_BITE_DAMAGE as int),
            destroyed == (final(zombie).body_hp <= 0),
    {
        self.chewing_timer = CHOMPER_CHEW_TICKS;
        zombie.take_damage(CHOMPER_BITE_DAMAGE)
    }
}

impl Dying {
    /// A fresh fall.
    pub fn new() -> (d: Dying)
        ensures
            d.remaining_ticks == DYING_TICKS,
    {
        Dying { remaining_ticks: DYING_TICKS }
    }

    /// The fall runs down; returns true when it is over and the corpse goes.
    pub fn step(&mut self, frame_ticks: i32) -> (gone: bool)
        requires
            frame_ticks <= 0 || old(self).remaining_ticks - frame_ticks >= i32::MIN,
        ensures
            frame_ticks <= 0 ==> *final(self) == *old(self) && !gone,
            frame_ticks > 0 ==> final(self).remaining_ticks == old(self).remaining_ticks
                - frame_ticks && gone == (final(self).remaining_ticks <= 0),
    {
        if frame_ticks <= 0 {
            return false;
        }
        self.remaining_ticks = self.remaining_ticks - frame_ticks;
        self.remaining_ticks <= 0
    }
}

/// Some zombie reached the house in a lane no mower guards.
pub open spec fn house_breached(reached_rows: Seq<usize>, mower_rows: Seq<usize>) -> bool {
    exists|i: int| 0 <= i < reached_rows.len() && !mower_rows.contains(#[trigger] reached_rows[i])
}

fn find_breach(reached_rows: &Vec<usize>, mower_rows: &Vec<usize>) -> (b: bool)
    ensures
        b == house_breached(reached_rows@, mower_rows@),
{
    let mut i: usize = 0;
    while i < reached_rows.len()
        invariant
            i <= reached_rows@.len(),
            forall|j: int| 0 <= j < i ==> mower_rows@.contains(#[trigger] reached_rows@[j]),
        decreases reached_rows@.len() - i,
    {
        let row = reached_rows[i];
        let mut guarded = false;
        let mut m: usize = 0;
        while m < mower_rows.len()
            invariant
                m <= mower_rows@.len(),
                guarded == (exists|k: int| 0 <= k < m && mower_rows@[k] == row),
            decreases mower_rows@.len() - m,
        {
            if mower_rows[m] == row {
                guarded = true;
            }
            m = m + 1;
        }
        if !guarded {
            assert(!mower_rows@.contains(reached_rows@[i as int]));
            return true;
        }
        i = i + 1;
    }
    false
}

/// The lost game: while no overlay is up, a zombie at the house in a lane
/// without a mower ends the level (Game Over, paused). `reached_rows` are
/// the lanes of the living zombies at the house; `mower_rows` those of the
/// mowers still on the lawn. Returns true when the game was lost now.
pub fn lose_on_house_reach(
    flow: &mut FlowControl,
    reached_rows: &Vec<usize>,
    mower_rows: &Vec<usize>,
) -> (lost: bool)
    ensures
        lost == (old(flow).overlay == Overlay::Clear && house_breached(reached_rows@, mower_rows@)),
        lost ==> *final(flow) == (FlowControl {
            overlay: Overlay::GameOver,
            paused: true,
            ..*old(flow)
        }),
        !lost ==> *final(flow) == *old(flow),
{
    if flow.overlay != Overlay::Clear {
        return false;
    }
    if find_breach(reached_rows, mower_rows) {
        flow.overlay = Overlay::GameOver;
        flow.paused = true;
        true
    } else {
        false
    }
}


/// One idle mower per lawn row, top to bottom.
pub fn spawn_mowers() -> (m: Vec<LawnMower>)
    ensures
        m@.len() == LAWN_ROWS,
        forall|r: int| 0 <= r < LAWN_ROWS ==> #[trigger] m@[r] == (LawnMower { row: r as usize, active: false }),
{
    let mut m: Vec<LawnMower> = Vec::new();
    let mut row: usize = 0;
    while row < LAWN_ROWS
        invariant
            row <= LAWN_ROWS,
            m@.len() == row,
            forall|r: int| 0 <= r < row ==> #[trigger] m@[r] == (LawnMower { row: r as usize, active: false }),
        decreases LAWN_ROWS - row,
    {
        m.push(LawnMower { row, active: false });
        row = row + 1;
    }
    m
}

} // verus!
