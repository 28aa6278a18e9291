//! Plants on the lawn and the timers of the special plants: sunflower
//! production, fuses (Cherry Bomb, Jalapeno, Ice-shroom, Doom-shroom),
//! Potato Mine arming, Chomper digestion, Spikeweed hit cooldowns and
//! Doom-shroom craters.

use vstd::prelude::*;

use crate::constants::{
    CHERRY_BOMB_FUSE_TICKS, DOOM_CRATER_TICKS, DOOM_SHROOM_FUSE_TICKS, ICE_SHROOM_FUSE_TICKS,
    JALAPENO_FUSE_TICKS, POTATO_MINE_ARM_TICKS, SPIKEWEED_HIT_INTERVAL_TICKS,
    SUNFLOWER_FIRST_SUN_TICKS, SUNFLOWER_SUN_INTERVAL_TICKS,
};
use crate::board::{cell_index, on_lawn, Board};
use crate::defs::{plant_attack_cooldown, plant_hp, PlantKind, SeedDef};

verus! {

/// A plant standing on the lawn.
#[derive(Clone, Copy, Debug, PartialEq, Eq, Structural)]
pub struct Plant {
    pub kind: PlantKind,
    pub row: usize,
    pub col: usize,
    pub hp: i32,
    pub attack_cooldown_remaining: i32,
    pub attack_cooldown_max: i32,
}

impl Plant {
    /// A freshly planted plant of the packet's kind in a cell.
    pub open spec fn is_fresh(self, kind: PlantKind, col: usize, row: usize) -> bool {
        &&& self.kind == kind
        &&& self.col == col
        &&& self.row == row
        &&& self.hp == plant_hp(kind)
        &&& self.attack_cooldown_remaining == 0
        &&& self.attack_cooldown_max == plant_attack_cooldown(kind)
    }

    /// A fresh plant grown from a packet.
    pub fn from_seed(def: &SeedDef, col: usize, row: usize) -> (p: Plant)
        requires
            def.describes(def.kind),
        ensures
            p.is_fresh(def.kind, col, row),
    {
        Plant {
            kind: def.kind,
            row,
            col,
            hp: def.hp,
            attack_cooldown_remaining: 0,
            attack_cooldown_max: def.attack_cooldown_ticks,
        }
    }
}

/// Sun production countdown of a Sunflower.
#[derive(Clone, Copy, Debug, PartialEq, Eq, Structural)]
pub struct SunProducer {
    pub countdown: i32,
}

/// Cherry Bomb fuse.
#[derive(Clone, Copy, Debug, PartialEq, Eq, Structural)]
pub struct CherryBombFuse {
    pub remaining: i32,
}

/// Potato Mine arming.
#[derive(Clone, Copy, Debug, PartialEq, Eq, Structural)]
pub struct PotatoMineState {
    pub armed: bool,
    pub arm_timer: i32,
}

/// Chomper digestion (> 0 while chewing; cannot bite).
#[derive(Clone, Copy, Debug, PartialEq, Eq, Structural)]
pub struct ChomperState {
    pub chewing_timer: i32,
}

/// Jalapeno fuse.
#[derive(Clone, Copy, Debug, PartialEq, Eq, Structural)]
pub struct JalapenoFuse {
    pub remaining: i32,
}

/// Ice-shroom fuse.
#[derive(Clone, Copy, Debug, PartialEq, Eq, Structural)]
pub struct IceShroomFuse {
    pub remaining: i32,
}

/// Doom-shroom fuse.
#[derive(Clone, Copy, Debug, PartialEq, Eq, Structural)]
pub struct DoomShroomFuse {
    pub remaining: i32,
}

/// Per-zombie hit cooldowns of a Spikeweed: (zombie id, ticks left).
#[derive(Clone, Debug)]
pub struct SpikeweedState {
    pub cooldowns: Vec<(u64, i32)>,
}

/// A Doom-shroom crater: blocks planting until it closes.
#[derive(Clone, Copy, Debug, PartialEq, Eq, Structural)]
pub struct Crater {
    pub remaining: i32,
    pub row: usize,
    pub col: usize,
}

/// Extra state a plant kind carries from the moment it is planted.
#[derive(Clone, Debug)]
pub enum PlantState {
    Plain,
    Sun(SunProducer),
    Cherry(CherryBombFuse),
    Potato(PotatoMineState),
    Chomper(ChomperState),
    Jalapeno(JalapenoFuse),
    Spikeweed(SpikeweedState),
    Ice(IceShroomFuse),
    Doom(DoomShroomFuse),
}

/// The state a freshly planted plant of `kind` starts with.
pub open spec fn is_initial_state(kind: PlantKind, s: PlantState) -> bool {
    match kind {
        PlantKind::Sunflower => s == PlantState::Sun(SunProducer { countdown: SUNFLOWER_FIRST_SUN_TICKS }),
        PlantKind::CherryBomb => s == PlantState::Cherry(CherryBombFuse { remaining: CHERRY_BOMB_FUSE_TICKS }),
        PlantKind::PotatoMine => s == PlantState::Potato(
            PotatoMineState { armed: false, arm_timer: POTATO_MINE_ARM_TICKS },
        ),
        PlantKind::Chomper => s == PlantState::Chomper(ChomperState { chewing_timer: 0 }),
        PlantKind::Jalapeno => s == PlantState::Jalapeno(JalapenoFuse { remaining: JALAPENO_FUSE_TICKS }),
        PlantKind::Spikeweed => s matches PlantState::Spikeweed(w) && w.cooldowns@.len() == 0,
        PlantKind::IceShroom => s == PlantState::Ice(IceShroomFuse { remaining: ICE_SHROOM_FUSE_TICKS }),
        PlantKind::DoomShroom => s == PlantState::Doom(DoomShroomFuse { remaining: DOOM_SHROOM_FUSE_TICKS }),
        _ => s == PlantState::Plain,
    }
}

/// The state a plant of `kind` is planted with.
pub fn attach_plant_state(kind: PlantKind) -> (s: PlantState)
    ensures
        is_initial_state(kind, s),
{
    match kind {
        PlantKind::Sunflower => PlantState::Sun(SunProducer::new()),
        PlantKind::CherryBomb => PlantState::Cherry(CherryBombFuse::new()),
        PlantKind::PotatoMine => PlantState::Potato(PotatoMineState::new()),
        PlantKind::Chomper => PlantState::Chomper(ChomperState { chewing_timer: 0 }),
        PlantKind::Jalapeno => PlantState::Jalapeno(JalapenoFuse::new()),
        PlantKind::Spikeweed => PlantState::Spikeweed(SpikeweedState { cooldowns: Vec::new() }),
        PlantKind::IceShroom => PlantState::Ice(IceShroomFuse::new()),
        PlantKind::DoomShroom => PlantState::Doom(DoomShroomFuse::new()),
        _ => PlantState::Plain,
    }
}

/// Law: what a plant starts with on the lawn. A Potato Mine starts
/// dormant, 1500 ticks (15 s) from arming; every fuse starts full and
/// unburnt, so no bomb or shroom goes off on the tick it is planted; a
/// Sunflower's first sun is 700 ticks away; a Chomper is ready to bite; a
/// Spikeweed has hurt no one yet; every other plant carries no state.
pub proof fn lemma_fresh_plant_states(kind: PlantKind, s: PlantState)
    requires
        is_initial_state(kind, s),
    ensures
        kind == PlantKind::PotatoMine ==> (s matches PlantState::Potato(m) && !m.armed && m.arm_timer
            == 1500),
        kind == PlantKind::CherryBomb ==> (s matches PlantState::Cherry(f) && f.remaining
            == CHERRY_BOMB_FUSE_TICKS && f.remaining > 0),
        kind == PlantKind::Jalapeno ==> (s matches PlantState::Jalapeno(f) && f.remaining
            == JALAPENO_FUSE_TICKS && f.remaining > 0),
        kind == PlantKind::IceShroom ==> (s matches PlantState::Ice(f) && f.remaining
            == ICE_SHROOM_FUSE_TICKS && f.remaining > 0),
        kind == PlantKind::DoomShroom ==> (s matches PlantState::Doom(f) && f.remaining
            == DOOM_SHROOM_FUSE_TICKS && f.remaining > 0),
        kind == PlantKind::Sunflower ==> (s matches PlantState::Sun(p) && p.countdown == 700),
        kind == PlantKind::Chomper ==> (s matches PlantState::Chomper(c) && c.chewing_timer == 0),
        kind == PlantKind::Spikeweed ==> (s matches PlantState::Spikeweed(w) && w.cooldowns@.len()
            == 0),
        kind != PlantKind::PotatoMine && kind != PlantKind::CherryBomb && kind
            != PlantKind::Jalapeno && kind != PlantKind::IceShroom && kind != PlantKind::DoomShroom
            && kind != PlantKind::Sunflower && kind != PlantKind::Chomper && kind
            != PlantKind::Spikeweed ==> s == PlantState::Plain,
{
}

/// Law: a freshly planted Potato Mine's arming timer outlasts any
/// `t` below 1500 ticks: its timer less `t` is still above zero.
pub proof fn lemma_fresh_mine_dormant(s: PlantState, t: int)
    requires
        is_initial_state(PlantKind::PotatoMine, s),
        0 <= t < 1500,
    ensures
        (s matches PlantState::Potato(m) && m.arm_timer - t > 0),
{
}

/// A countdown of `frame_ticks` that stays in range.
pub open spec fn countdown_fits(t: i32, frame_ticks: i32) -> bool {
    frame_ticks <= 0 || t - frame_ticks >= i32::MIN
}

impl SunProducer {
    /// First sun comes sooner than the regular interval.
    pub fn new() -> (p: SunProducer)
        ensures
            p.countdown == SUNFLOWER_FIRST_SUN_TICKS,
    {
        SunProducer { countdown: SUNFLOWER_FIRST_SUN_TICKS }
    }

    /// One production step; true when a sun drops this step (at most one
    /// per step, the countdown then rewinds by one interval).
    pub fn step(&mut self, frame_ticks: i32) -> (drop_sun: bool)
        requires
            countdown_fits(old(self).countdown, frame_ticks),
            frame_ticks <= 0 || old(self).countdown - frame_ticks + SUNFLOWER_SUN_INTERVAL_TICKS
                <= i32::MAX,
        ensures
            frame_ticks <= 0 ==> !drop_sun && *final(self) == *old(self),
            frame_ticks > 0 ==> drop_sun == (old(self).countdown - frame_ticks <= 0),
            frame_ticks > 0 ==> final(self).countdown == old(self).countdown - frame_ticks + if drop_sun {
                SUNFLOWER_SUN_INTERVAL_TICKS as int
            } else {
                0int
            },
    {
        if frame_ticks <= 0 {
            return false;
        }
        self.countdown = self.countdown - frame_ticks;
        if self.countdown > 0 {
            return false;
        }
        self.countdown = self.countdown + SUNFLOWER_SUN_INTERVAL_TICKS;
        true
    }
}

/// One fuse step: the fuse burns by the frame's ticks and goes off when it
/// reaches zero.
pub open spec fn fuse_after(remaining: i32, frame_ticks: i32) -> int {
    if frame_ticks <= 0 {
        remaining as int
    } else {
        remaining - frame_ticks
    }
}

/// Burns a fuse; true when it goes off this step.
fn burn_fuse(remaining: &mut i32, frame_ticks: i32) -> (boom: bool)
    requires
        countdown_fits(*old(remaining), frame_ticks),
    ensures
        *final(remaining) == fuse_after(*old(remaining), frame_ticks),
        boom == (frame_ticks > 0 && *final(remaining) <= 0),
{
    if frame_ticks <= 0 {
        return false;
    }
    *remaining = *remaining - frame_ticks;
    *remaining <= 0
}

impl CherryBombFuse {
    /// 1.2 s fuse.
    pub fn new() -> (f: CherryBombFuse)
        ensures
            f.remaining == CHERRY_BOMB_FUSE_TICKS,
    {
        CherryBombFuse { remaining: CHERRY_BOMB_FUSE_TICKS }
    }

    /// Burns the fuse; true when the bomb detonates this step.
    pub fn step(&mut self, frame_ticks: i32) -> (boom: bool)
        requires
            countdown_fits(old(self).remaining, frame_ticks),
        ensures
            final(self).remaining == fuse_after(old(self).remaining, frame_ticks),
            boom == (frame_ticks > 0 && final(self).remaining <= 0),
    {
        burn_fuse(&mut self.remaining, frame_ticks)
    }
}

impl JalapenoFuse {
    /// 1 s fuse.
    pub fn new() -> (f: JalapenoFuse)
        ensures
            f.remaining == JALAPENO_FUSE_TICKS,
    {
        JalapenoFuse { remaining: JALAPENO_FUSE_TICKS }
    }

    /// Burns the fuse; true when the row ignites this step.
    pub fn step(&mut self, frame_ticks: i32) -> (boom: bool)
        requires
            countdown_fits(old(self).remaining, frame_ticks),
        ensures
            final(self).remaining == fuse_after(old(self).remaining, frame_ticks),
            boom == (frame_ticks > 0 && final(self).remaining <= 0),
    {
        burn_fuse(&mut self.remaining, frame_ticks)
    }
}

impl IceShroomFuse {
    /// 1 s fuse.
    pub fn new() -> (f: IceShroomFuse)
        ensures
            f.remaining == ICE_SHROOM_FUSE_TICKS,
    {
        IceShroomFuse { remaining: ICE_SHROOM_FUSE_TICKS }
    }

    /// Burns the fuse; true when the lawn freezes this step.
    pub fn step(&mut self, frame_ticks: i32) -> (boom: bool)
        requires
            countdown_fits(old(self).remaining, frame_ticks),
        ensures
            final(self).remaining == fuse_after(old(self).remaining, frame_ticks),
            boom == (frame_ticks > 0 && final(self).remaining <= 0),
    {
        burn_fuse(&mut self.remaining, frame_ticks)
    }
}

impl DoomShroomFuse {
    /// 1 s fuse.
    pub fn new() -> (f: DoomShroomFuse)
        ensures
            f.remaining == DOOM_SHROOM_FUSE_TICKS,
    {
        DoomShroomFuse { remaining: DOOM_SHROOM_FUSE_TICKS }
    }

    /// Burns the fuse; true when the shroom detonates this step.
    pub fn step(&mut self, frame_ticks: i32) -> (boom: bool)
        requires
            countdown_fits(old(self).remaining, frame_ticks),
        ensures
            final(self).remaining == fuse_after(old(self).remaining, frame_ticks),
            boom == (frame_ticks > 0 && final(self).remaining <= 0),
    {
        burn_fuse(&mut self.remaining, frame_ticks)
    }
}

impl PotatoMineState {
    /// Dormant, 15 s to arm.
    pub fn new() -> (m: PotatoMineState)
        ensures
            !m.armed,
            m.arm_timer == POTATO_MINE_ARM_TICKS,
    {
        PotatoMineState { armed: false, arm_timer: POTATO_MINE_ARM_TICKS }
    }

    /// Arming step: an armed mine stays armed; a dormant one counts down
    /// and arms when its timer runs out.
    pub fn step(&mut self, frame_ticks: i32)
        requires
            countdown_fits(old(self).arm_timer, frame_ticks),
        ensures
            frame_ticks <= 0 || old(self).armed ==> *final(self) == *old(self),
            frame_ticks > 0 && !old(self).armed ==> final(self).arm_timer == old(self).arm_timer
                - frame_ticks && final(self).armed == (final(self).arm_timer <= 0),
    {
        if frame_ticks <= 0 || self.armed {
            return;
        }
        self.arm_timer = self.arm_timer - frame_ticks;
        if self.arm_timer <= 0 {
            self.armed = true;
        }
    }
}

impl ChomperState {
    /// One digestion step. Returns true when the Chomper is ready to bite
    /// this step (it was not chewing); a chewing Chomper chews on, never
    /// below zero.
    pub fn step(&mut self, frame_ticks: i32) -> (ready: bool)
        requires
            countdown_fits(old(self).chewing_timer, frame_ticks),
        ensures
            frame_ticks <= 0 ==> !ready && *final(self) == *old(self),
            frame_ticks > 0 ==> ready == (old(self).chewing_timer <= 0),
            frame_ticks > 0 && old(self).chewing_timer > 0 ==> final(self).chewing_timer == if old(self).chewing_timer - frame_ticks > 0 {
                old(self).chewing_timer - frame_ticks
            } else {
                0
            },
            frame_ticks > 0 && old(self).chewing_timer <= 0 ==> *final(self) == *old(self),
    {
        if frame_ticks <= 0 {
            return false;
        }
        if self.chewing_timer > 0 {
            let left = self.chewing_timer - frame_ticks;
            self.chewing_timer = if left > 0 {
                left
            } else {
                0
            };
            return false;
        }
        true
    }
}

/// Ticks spikes wait before hurting the same zombie again, after a step.
pub open spec fn spike_cooldowns_after(c: Seq<(u64, i32)>, frame_ticks: i32) -> Seq<(u64, i32)>
    decreases c.len(),
{
    if c.len() == 0 {
        Seq::empty()
    } else {
        let rest = spike_cooldowns_after(c.drop_last(), frame_ticks);
        let (id, rem) = c.last();
        if rem - frame_ticks > 0 {
            rest.push((id, (rem - frame_ticks) as i32))
        } else {
            rest
        }
    }
}

/// Whether a zombie is still on a Spikeweed's cooldown list.
pub open spec fn spike_cooling(c: Seq<(u64, i32)>, id: u64) -> bool {
    exists|i: int| 0 <= i < c.len() && #[trigger] c[i].0 == id
}

impl SpikeweedState {
    /// Cooldown entries stay in range over one step.
    pub open spec fn step_fits(&self, frame_ticks: i32) -> bool {
        frame_ticks <= 0 || forall|i: int|
            0 <= i < self.cooldowns@.len() ==> #[trigger] self.cooldowns@[i].1 - frame_ticks >= i32::MIN
    }

    /// One Spikeweed step: cooldowns tick down and expire; each zombie
    /// standing on the spikes (`standing`, by id) that is not cooling down
    /// is hit and starts a fresh cooldown. Returns the ids hit this step.
    pub fn step(&mut self, frame_ticks: i32, standing: &Vec<u64>) -> (hits: Vec<u64>)
        requires
            frame_ticks > 0,
            old(self).step_fits(frame_ticks),
        ensures
            hits@ == standing@.filter(
                |id: u64| !spike_cooling(spike_cooldowns_after(old(self).cooldowns@, frame_ticks), id),
            ),
            final(self).cooldowns@ == spike_cooldowns_after(old(self).cooldowns@, frame_ticks)
                + hits@.map_values(|id: u64| (id, SPIKEWEED_HIT_INTERVAL_TICKS)),
    {
        let mut kept: Vec<(u64, i32)> = Vec::new();
        let mut i: usize = 0;
        while i < self.cooldowns.len()
            invariant
                i <= self.cooldowns@.len(),
                self.cooldowns@ == old(self).cooldowns@,
                frame_ticks > 0,
                old(self).step_fits(frame_ticks),
                kept@ == spike_cooldowns_after(old(self).cooldowns@.take(i as int), frame_ticks),
            decreases self.cooldowns@.len() - i,
        {
            let (id, rem) = self.cooldowns[i];
            assert(self.cooldowns@.take(i + 1).drop_last() == self.cooldowns@.take(i as int));
            assert(self.cooldowns@[i as int].1 - frame_ticks >= i32::MIN);
            let left = rem - frame_ticks;
            if left > 0 {
                kept.push((id, left));
            }
            i = i + 1;
        }
        assert(old(self).cooldowns@.take(old(self).cooldowns@.len() as int) == old(self).cooldowns@);
        let ghost after = kept@;
        let mut hits: Vec<u64> = Vec::new();
        let mut j: usize = 0;
        while j < standing.len()
            invariant
                j <= standing@.len(),
                after == spike_cooldowns_after(old(self).cooldowns@, frame_ticks),
                kept@ == after,
                hits@ == standing@.take(j as int).filter(|id: u64| !spike_cooling(after, id)),
            decreases standing@.len() - j,
        {
            reveal(Seq::filter);
            let id = standing[j];
            let mut cooling = false;
            let mut k: usize = 0;
            while k < kept.len()
                invariant
                    k <= kept@.len(),
                    kept@ == after,
                    cooling == exists|t: int| 0 <= t < k && #[trigger] after[t].0 == id,
                decreases kept@.len() - k,
            {
                if kept[k].0 == id {
                    cooling = true;
                }
                k = k + 1;
            }
            assert(standing@.take(j + 1).drop_last() == standing@.take(j as int));
            if !cooling {
                hits.push(id);
            }
            j = j + 1;
        }
        assert(standing@.take(standing@.len() as int) == standing@);
        let mut m: usize = 0;
        let ghost base = kept@;
        while m < hits.len()
            invariant
                m <= hits@.len(),
                kept@ == base + hits@.take(m as int).map_values(|id: u64| (id, SPIKEWEED_HIT_INTERVAL_TICKS)),
            decreases hits@.len() - m,
        {
            kept.push((hits[m], SPIKEWEED_HIT_INTERVAL_TICKS));
            assert(hits@.take(m + 1).map_values(|id: u64| (id, SPIKEWEED_HIT_INTERVAL_TICKS))
                == hits@.take(m as int).map_values(|id: u64| (id, SPIKEWEED_HIT_INTERVAL_TICKS)).push(
                (hits@[m as int], SPIKEWEED_HIT_INTERVAL_TICKS),
            ));
            m = m + 1;
        }
        assert(hits@.take(hits@.len() as int) == hits@);
        self.cooldowns = kept;
        hits
    }
}

/// A closed crater frees its cell, unless something else holds the cell
/// by now (a Doom-shroom blast may have replaced it). Returns true when the
/// cell was freed.
pub fn release_crater_cell(board: &mut Board, crater: &Crater, crater_id: u64) -> (freed: bool)
    requires
        old(board).wf(),
        on_lawn(crater.col as int, crater.row as int),
    ensures
        freed == (old(board).at(crater.col as int, crater.row as int) == Some(crater_id)),
        freed ==> final(board).cells@ == old(board).cells@.update(
            cell_index(crater.col as int, crater.row as int),
            None,
        ),
        !freed ==> final(board).cells@ == old(board).cells@,
        final(board).wf(),
        final(board).sun == old(board).sun,
        final(board).stage == old(board).stage,
        final(board).sky_sun_timer == old(board).sky_sun_timer,
        final(board).sun_collected_total == old(board).sun_collected_total,
{
    if board.cell(crater.col, crater.row) == Some(crater_id) {
        board.set_cell(crater.col, crater.row, None);
        true
    } else {
        false
    }
}

impl Crater {
    /// A fresh 180 s crater in a cell.
    pub fn new(col: usize, row: usize) -> (c: Crater)
        ensures
            c.remaining == DOOM_CRATER_TICKS,
            c.col == col,
            c.row == row,
    {
        Crater { remaining: DOOM_CRATER_TICKS, row, col }
    }

    /// Crater countdown; true when it closes this step.
    pub fn step(&mut self, frame_ticks: i32) -> (closed: bool)
        requires
            countdown_fits(old(self).remaining, frame_ticks),
        ensures
            final(self).remaining == fuse_after(old(self).remaining, frame_ticks),
            final(self).row == old(self).row,
            final(self).col == old(self).col,
            closed == (frame_ticks > 0 && final(self).remaining <= 0),
    {
        burn_fuse(&mut self.remaining, frame_ticks)
    }
}

} // verus!
