//! Sun economy and planting: packet recharge, sky sun, sun pickup and
//! expiry, board clicks (planting and digging), seed selection, HUD sync.

use vstd::prelude::*;

use crate::board::{on_lawn, Board, Stage};
use crate::constants::{LAWN_COLS, LAWN_ROWS, SKY_SUN_INTERVAL_TICKS, SUN_LIFETIME_TICKS};
use crate::defs::{kind_named, plant_cost, plant_recharge, seed_def};
use crate::flow::{FlowControl, Overlay};
use crate::specials::{attach_plant_state, is_initial_state, Plant, PlantState};
use crate::ui::{PilotUi, SeedSlot, UiView};

verus! {

/// Recharge countdown of each bank slot.
#[derive(Clone, Debug)]
pub struct SeedBankRuntime {
    pub recharge_remaining: Vec<i32>,
}

/// Suns actually collected this level (spending does not undo it).
#[derive(Clone, Copy, Debug, PartialEq, Eq, Structural)]
pub struct SunStats {
    pub collected_total: u32,
}

/// Countdown of one recharge slot after a step.
pub open spec fn recharge_after(rem: i32, frame_ticks: i32) -> i32 {
    if rem > 0 {
        if rem - frame_ticks > 0 {
            (rem - frame_ticks) as i32
        } else {
            0
        }
    } else {
        rem
    }
}

impl SeedBankRuntime {
    /// No slot recharging.
    pub fn new() -> (r: SeedBankRuntime)
        ensures
            r.recharge_remaining@.len() == 0,
    {
        SeedBankRuntime { recharge_remaining: Vec::new() }
    }

    /// Recharging slots count down by the frame's ticks, never below zero.
    pub fn tick_seed_recharge(&mut self, frame_ticks: i32)
        ensures
            frame_ticks <= 0 ==> final(self).recharge_remaining@ == old(self).recharge_remaining@,
            frame_ticks > 0 ==> final(self).recharge_remaining@ == old(self).recharge_remaining@.map_values(|r: i32| recharge_after(r, frame_ticks)),
    {
        if frame_ticks <= 0 {
            return;
        }
        let ghost orig = self.recharge_remaining@;
        let mut i: usize = 0;
        while i < self.recharge_remaining.len()
            invariant
                frame_ticks > 0,
                i <= self.recharge_remaining@.len(),
                self.recharge_remaining@.len() == orig.len(),
                forall|j: int| 0 <= j < i ==> #[trigger] self.recharge_remaining@[j] == recharge_after(orig[j], frame_ticks),
                forall|j: int| i <= j < orig.len() ==> #[trigger] self.recharge_remaining@[j] == orig[j],
            decreases orig.len() - i,
        {
            let rem = self.recharge_remaining[i];
            if rem > 0 {
                let left = rem - frame_ticks;
                self.recharge_remaining.set(i, if left > 0 { left } else { 0 });
            }
            i = i + 1;
        }
        assert(self.recharge_remaining@ == orig.map_values(|r: i32| recharge_after(r, frame_ticks)));
    }

    /// Recharge countdown of a slot (0 for slots never used).
    pub fn remaining(&self, slot: usize) -> (r: i32)
        ensures
            r == if slot < self.recharge_remaining@.len() {
                self.recharge_remaining@[slot as int]
            } else {
                0
            },
    {
        if slot < self.recharge_remaining.len() {
            self.recharge_remaining[slot]
        } else {
            0
        }
    }
}

/// Sky suns due after a step: how many intervals the timer crossed.
pub open spec fn sky_suns_due(timer: int) -> nat {
    if timer > 0 {
        0
    } else {
        ((-timer) / (SKY_SUN_INTERVAL_TICKS as int) + 1) as nat
    }
}

/// Sky-sun timer: on day levels it runs down by the frame's ticks and
/// every interval it crosses drops one sun. Returns the suns to drop.
pub fn spawn_sky_sun(board: &mut Board, frame_ticks: i32) -> (count: u32)
    requires
        old(board).sky_sun_timer - frame_ticks >= i32::MIN,
    ensures
        final(board).cells@ == old(board).cells@,
        final(board).sun == old(board).sun,
        final(board).stage == old(board).stage,
        final(board).sun_collected_total == old(board).sun_collected_total,
        frame_ticks <= 0 || old(board).stage == Stage::Night ==> count == 0 && final(board).sky_sun_timer
            == old(board).sky_sun_timer,
        frame_ticks > 0 && old(board).stage == Stage::Day ==> {
            let t = old(board).sky_sun_timer - frame_ticks;
            &&& count == sky_suns_due(t)
            &&& final(board).sky_sun_timer == t + count * SKY_SUN_INTERVAL_TICKS
            &&& 0 < final(board).sky_sun_timer
            &&& old(board).sky_sun_timer <= SKY_SUN_INTERVAL_TICKS ==> final(board).sky_sun_timer
                <= SKY_SUN_INTERVAL_TICKS
        },
{
    if frame_ticks <= 0 {
        return 0;
    }
    if board.stage == Stage::Night {
        return 0;
    }
    let ghost t: int = board.sky_sun_timer - frame_ticks;
    board.sky_sun_timer = board.sky_sun_timer - frame_ticks;
    let mut count: u32 = 0;
    while board.sky_sun_timer <= 0
        invariant
            board.sky_sun_timer == t + count * SKY_SUN_INTERVAL_TICKS,
            t >= i32::MIN,
            t <= i32::MAX,
            count <= sky_suns_due(t),
            count > 0 ==> board.sky_sun_timer <= SKY_SUN_INTERVAL_TICKS,
            old(board).sky_sun_timer <= SKY_SUN_INTERVAL_TICKS ==> board.sky_sun_timer
                <= SKY_SUN_INTERVAL_TICKS,
            board.cells@ == old(board).cells@,
            board.sun == old(board).sun,
            board.stage == old(board).stage,
            board.sun_collected_total == old(board).sun_collected_total,
        decreases sky_suns_due(t) - count,
    {
        proof {
            let q = (-t) / (SKY_SUN_INTERVAL_TICKS as int);
            assert(t + (q + 1) * SKY_SUN_INTERVAL_TICKS > 0) by (nonlinear_arith)
                requires q == (-t) / 425, t <= 0;
            assert(count < sky_suns_due(t)) by (nonlinear_arith)
                requires
                    t + count * 425 <= 0,
                    t + (q + 1) * 425 > 0,
                    q == (-t) / 425,
                    t <= 0,
                    sky_suns_due(t) == q + 1;
        }
        board.sky_sun_timer = board.sky_sun_timer + SKY_SUN_INTERVAL_TICKS;
        count = count + 1;
    }
    proof {
        if t <= 0 {
            let q = (-t) / (SKY_SUN_INTERVAL_TICKS as int);
            assert(count == sky_suns_due(t)) by (nonlinear_arith)
                requires
                    t + count * 425 > 0,
                    t + (count - 1) * 425 <= 0 || count == 0,
                    count <= q + 1,
                    q == (-t) / 425,
                    t <= 0,
                    sky_suns_due(t) == q + 1;
        }
    }
    count
}

/// A sun disappears once it has lain uncollected for its lifetime.
pub fn sun_expired(now_tick: i64, born_tick: i64) -> (r: bool)
    requires
        now_tick - born_tick >= i64::MIN,
        now_tick - born_tick <= i64::MAX,
    ensures
        r == (now_tick - born_tick >= SUN_LIFETIME_TICKS),
{
    now_tick - born_tick >= SUN_LIFETIME_TICKS as i64
}

/// Picking up a sun worth `value`.
pub fn collect_sun(board: &mut Board, stats: &mut SunStats, value: i32)
    requires
        old(board).sun + value <= i32::MAX,
        old(board).sun + value >= i32::MIN,
        old(stats).collected_total < u32::MAX,
    ensures
        final(board).sun == old(board).sun + value,
        final(stats).collected_total == old(stats).collected_total + 1,
        final(board).cells@ == old(board).cells@,
        final(board).stage == old(board).stage,
        final(board).sky_sun_timer == old(board).sky_sun_timer,
        final(board).sun_collected_total == old(board).sun_collected_total,
{
    board.sun = board.sun + value;
    stats.collected_total = stats.collected_total + 1;
}

/// What a click on the lawn did.
#[derive(Clone, Debug)]
pub enum BoardClick {
    /// Nothing happened (click consumed, overlay up, off the lawn, no
    /// packet selected, or an unknown packet).
    Ignored,
    /// The shovel dug the cell; the former occupant, if any.
    Dug(Option<u64>),
    /// The selected packet is still recharging, or the cell is taken.
    Rejected,
    /// Not enough sun: the not-enough-sun overlay opens.
    NotEnoughSun,
    /// A plant grew in the cell under the given id, with its start state.
    Planted(Plant, PlantState),
}

/// Column of a clicked cell.
pub open spec fn cell_col(cell: Option<(usize, usize)>) -> int {
    let c = cell->0;
    c.0 as int
}

/// Row of a clicked cell.
pub open spec fn cell_row(cell: Option<(usize, usize)>) -> int {
    let c = cell->0;
    c.1 as int
}

/// Index of the first selected slot of a bank.
pub open spec fn first_selected(bank: Seq<SeedSlot>) -> Option<int> {
    if exists|i: int| 0 <= i < bank.len() && #[trigger] bank[i].selected {
        Some(choose|i: int| 0 <= i < bank.len() && #[trigger] bank[i].selected && forall|j: int| 0 <= j < i ==> !bank[j].selected)
    } else {
        None
    }
}

/// A bank with every selection cleared, otherwise the same.
pub open spec fn deselected(old_bank: Seq<SeedSlot>, new_bank: Seq<SeedSlot>) -> bool {
    &&& new_bank.len() == old_bank.len()
    &&& forall|i: int|
        0 <= i < old_bank.len() ==> {
            &&& !(#[trigger] new_bank[i]).selected
            &&& new_bank[i].seed_name@ == old_bank[i].seed_name@
            &&& new_bank[i].cost == old_bank[i].cost
            &&& new_bank[i].ready == old_bank[i].ready
            &&& new_bank[i].affordable == old_bank[i].affordable
        }
}

/// The same bank, slot for slot.
pub open spec fn same_bank(a: Seq<SeedSlot>, b: Seq<SeedSlot>) -> bool {
    &&& a.len() == b.len()
    &&& forall|i: int|
        0 <= i < a.len() ==> {
            &&& (#[trigger] b[i]).selected == a[i].selected
            &&& b[i].seed_name@ == a[i].seed_name@
            &&& b[i].cost == a[i].cost
            &&& b[i].ready == a[i].ready
            &&& b[i].affordable == a[i].affordable
        }
}

/// Clears every packet selection.
pub fn clear_selection(ui: &mut PilotUi)
    ensures
        deselected(old(ui).seed_bank@, final(ui).seed_bank@),
        final(ui)@ == (UiView { seed_bank: final(ui).seed_bank@, ..old(ui)@ }),
        final(ui).shovel_selected == old(ui).shovel_selected,
        final(ui).sun == old(ui).sun,
        final(ui).adventure_level == old(ui).adventure_level,
        final(ui).phase == old(ui).phase,
        final(ui).unlocked_seed_names@ == old(ui).unlocked_seed_names@,
        final(ui).chooser_picks@ == old(ui).chooser_picks@,
        final(ui).pending_award_seed == old(ui).pending_award_seed,
{
    let mut i: usize = 0;
    while i < ui.seed_bank.len()
        invariant
            i <= ui.seed_bank@.len(),
            ui.seed_bank@.len() == old(ui).seed_bank@.len(),
            forall|j: int| 0 <= j < i ==> !(#[trigger] ui.seed_bank@[j]).selected,
            forall|j: int|
                0 <= j < ui.seed_bank@.len() ==> {
                    &&& (#[trigger] ui.seed_bank@[j]).seed_name@ == old(ui).seed_bank@[j].seed_name@
                    &&& ui.seed_bank@[j].cost == old(ui).seed_bank@[j].cost
                    &&& ui.seed_bank@[j].ready == old(ui).seed_bank@[j].ready
                    &&& ui.seed_bank@[j].affordable == old(ui).seed_bank@[j].affordable
                },
            forall|j: int| i <= j < ui.seed_bank@.len() ==> (#[trigger] ui.seed_bank@[j]).selected == old(ui).seed_bank@[j].selected,
            ui.shovel_selected == old(ui).shovel_selected,
            ui.sun == old(ui).sun,
            ui.adventure_level == old(ui).adventure_level,
            ui.phase == old(ui).phase,
            ui.unlocked_seed_names@ == old(ui).unlocked_seed_names@,
            ui.chooser_picks@ == old(ui).chooser_picks@,
            ui.pending_award_seed == old(ui).pending_award_seed,
            ui@ == (UiView { seed_bank: ui.seed_bank@, ..old(ui)@ }),
        decreases old(ui).seed_bank@.len() - i,
    {
        let mut slot = ui.seed_bank.remove(i);
        slot.selected = false;
        ui.seed_bank.insert(i, slot);
        i = i + 1;
    }
}

/// Index of the first selected slot.
fn position_selected(bank: &Vec<SeedSlot>) -> (r: Option<usize>)
    ensures
        match r {
            Some(i) => (i as int) < bank@.len() && bank@[i as int].selected && forall|j: int|
                0 <= j < i ==> !(#[trigger] bank@[j]).selected,
            None => forall|j: int| 0 <= j < bank@.len() ==> !(#[trigger] bank@[j]).selected,
        },
{
    let mut i: usize = 0;
    while i < bank.len()
        invariant
            i <= bank@.len(),
            forall|j: int| 0 <= j < i ==> !(#[trigger] bank@[j]).selected,
        decreases bank@.len() - i,
    {
        if bank[i].selected {
            return Some(i);
        }
        i = i + 1;
    }
    None
}

/// Resolves a click on the lawn. `consumed` tells whether a sun pickup
/// already used this click; `cell` is the clicked lawn cell (`None` off the
/// lawn); `plant_id` names the plant if one grows.
///
/// With the shovel selected the cell is dug (shovel deselected). Otherwise
/// the first selected packet is planted when it is recharged, affordable
/// and the cell is free: the sun is paid, the slot starts recharging, the
/// cell holds `plant_id`. A recharging packet or a taken cell rejects the
/// click; too little sun opens the not-enough-sun overlay. Every outcome
/// but a dig clears the packet selection.
pub fn handle_board_click(
    consumed: bool,
    cell: Option<(usize, usize)>,
    plant_id: u64,
    board: &mut Board,
    runtime: &mut SeedBankRuntime,
    ui: &mut PilotUi,
    flow: &mut FlowControl,
) -> (r: BoardClick)
    requires
        old(board).wf(),
        old(runtime).recharge_remaining@.len() < usize::MAX,
    ensures
        final(board).wf(),
        final(board).stage == old(board).stage,
        final(board).sky_sun_timer == old(board).sky_sun_timer,
        final(ui).adventure_level == old(ui).adventure_level,
        final(ui).phase == old(ui).phase,
        final(ui).unlocked_seed_names@ == old(ui).unlocked_seed_names@,
        final(ui)@ == (UiView {
            seed_bank: final(ui).seed_bank@,
            shovel_selected: final(ui).shovel_selected,
            ..old(ui)@
        }),
        ({
            let idle = *final(board) == *old(board) && final(runtime).recharge_remaining@ == old(runtime).recharge_remaining@ && *final(flow) == *old(flow);
            if consumed || old(flow).overlay != Overlay::Clear || cell is None {
                &&& r is Ignored
                &&& idle
                &&& same_bank(old(ui).seed_bank@, final(ui).seed_bank@)
                &&& final(ui).shovel_selected == old(ui).shovel_selected
            } else if !on_lawn(cell_col(cell), cell_row(cell)) {
                &&& r is Ignored
                &&& idle
                &&& same_bank(old(ui).seed_bank@, final(ui).seed_bank@)
                &&& final(ui).shovel_selected == old(ui).shovel_selected
            } else {
                let (col, row) = cell->0;
                if old(ui).shovel_selected {
                    &&& r == BoardClick::Dug(old(board).at(col as int, row as int))
                    &&& final(board).cells@ == old(board).cells@.update(
                        crate::board::cell_index(col as int, row as int),
                        None,
                    )
                    &&& final(board).sun == old(board).sun
                    &&& !final(ui).shovel_selected
                    &&& same_bank(old(ui).seed_bank@, final(ui).seed_bank@)
                    &&& final(runtime).recharge_remaining@ == old(runtime).recharge_remaining@
                    &&& *final(flow) == *old(flow)
                } else {
                    match first_selected(old(ui).seed_bank@) {
                        None => {
                            &&& r is Ignored
                            &&& idle
                            &&& same_bank(old(ui).seed_bank@, final(ui).seed_bank@)
                        },
                        Some(slot) => {
                            let name = old(ui).seed_bank@[slot].seed_name@;
                            let rem = if slot < old(runtime).recharge_remaining@.len() {
                                old(runtime).recharge_remaining@[slot] as int
                            } else {
                                0int
                            };
                            &&& final(ui).shovel_selected == old(ui).shovel_selected
                            &&& match kind_named(name) {
                                None => r is Ignored && idle && same_bank(
                                    old(ui).seed_bank@,
                                    final(ui).seed_bank@,
                                ),
                                Some(kind) => {
                                    &&& deselected(old(ui).seed_bank@, final(ui).seed_bank@)
                                    &&& if rem > 0 {
                                        r is Rejected && idle
                                    } else if old(board).sun < plant_cost(kind) {
                                        &&& r is NotEnoughSun
                                        &&& *final(board) == *old(board)
                                        &&& final(runtime).recharge_remaining@ == old(runtime).recharge_remaining@
                                        &&& final(flow).overlay == Overlay::NotEnoughSun
                                        &&& final(flow).paused == old(flow).paused
                                        &&& final(flow).pending_restart == old(flow).pending_restart
                                    } else if old(board).at(col as int, row as int) is Some {
                                        r is Rejected && idle
                                    } else {
                                        &&& r matches BoardClick::Planted(p, st) && p.is_fresh(
                                            kind,
                                            col,
                                            row,
                                        ) && is_initial_state(kind, st)
                                        &&& final(board).sun == old(board).sun - plant_cost(kind)
                                        &&& final(board).cells@ == old(board).cells@.update(
                                            crate::board::cell_index(col as int, row as int),
                                            Some(plant_id),
                                        )
                                        &&& final(board).sun_collected_total == old(board).sun_collected_total
                                        &&& final(runtime).recharge_remaining@.len() == if slot
                                            < old(runtime).recharge_remaining@.len() {
                                            old(runtime).recharge_remaining@.len() as int
                                        } else {
                                            slot + 1
                                        }
                                        &&& final(runtime).recharge_remaining@[slot] == plant_recharge(
                                            kind,
                                        )
                                        &&& forall|j: int|
                                            #![trigger final(runtime).recharge_remaining@[j]]
                                            0 <= j < final(runtime).recharge_remaining@.len() && j != slot
                                                ==> final(runtime).recharge_remaining@[j] == (if j < old(runtime).recharge_remaining@.len() {
                                                old(runtime).recharge_remaining@[j]
                                            } else {
                                                0
                                            })
                                        &&& *final(flow) == *old(flow)
                                    }
                                },
                            }
                        },
                    }
                }
            }
        }),
{
    if consumed || flow.overlay != Overlay::Clear {
        return BoardClick::Ignored;
    }
    let (col, row) = match cell {
        Some(c) => c,
        None => return BoardClick::Ignored,
    };
    if !(col < LAWN_COLS && row < LAWN_ROWS) {
        return BoardClick::Ignored;
    }
    if ui.shovel_selected {
        let dug = board.take_cell(col, row);
        ui.shovel_selected = false;
        return BoardClick::Dug(dug);
    }
    let slot_idx = match position_selected(&ui.seed_bank) {
        Some(i) => i,
        None => {
            proof {
                assert(first_selected(old(ui).seed_bank@) is None);
            }
            return BoardClick::Ignored;
        },
    };
    proof {
        let f = first_selected(old(ui).seed_bank@);
        assert(old(ui).seed_bank@[slot_idx as int].selected);
        assert(f is Some);
        let c = f->0;
        assert(c == slot_idx as int) by {
            if c < slot_idx as int {
                assert(!old(ui).seed_bank@[c].selected);
            }
            if c > slot_idx as int {
                assert(!old(ui).seed_bank@[slot_idx as int].selected);
            }
        }
    }
    let def = match seed_def(ui.seed_bank[slot_idx].seed_name.as_str()) {
        Some(d) => d,
        None => return BoardClick::Ignored,
    };
    if runtime.remaining(slot_idx) > 0 {
        clear_selection(ui);
        return BoardClick::Rejected;
    }
    if board.sun < def.cost {
        clear_selection(ui);
        flow.overlay = Overlay::NotEnoughSun;
        return BoardClick::NotEnoughSun;
    }
    if !board.can_plant(col, row) {
        clear_selection(ui);
        return BoardClick::Rejected;
    }
    board.sun = board.sun - def.cost;
    if slot_idx >= runtime.recharge_remaining.len() {
        while runtime.recharge_remaining.len() <= slot_idx
            invariant
                runtime.recharge_remaining@.len() <= slot_idx + 1,
                old(runtime).recharge_remaining@.len() <= runtime.recharge_remaining@.len(),
                forall|j: int| 0 <= j < runtime.recharge_remaining@.len() ==> #[trigger] runtime.recharge_remaining@[j] == if j < old(runtime).recharge_remaining@.len() {
                    old(runtime).recharge_remaining@[j]
                } else {
                    0
                },
            decreases slot_idx + 1 - runtime.recharge_remaining@.len(),
        {
            runtime.recharge_remaining.push(0);
        }
    }
    runtime.recharge_remaining.set(slot_idx, def.recharge_ticks);
    clear_selection(ui);
    let plant = Plant::from_seed(&def, col, row);
    let state = attach_plant_state(def.kind);
    board.set_cell(col, row, Some(plant_id));
    BoardClick::Planted(plant, state)
}

/// The same bank with exactly slot `idx` selected.
pub open spec fn reselected(old_bank: Seq<SeedSlot>, new_bank: Seq<SeedSlot>, idx: int) -> bool {
    &&& new_bank.len() == old_bank.len()
    &&& forall|i: int|
        0 <= i < old_bank.len() ==> {
            &&& (#[trigger] new_bank[i]).selected == (i == idx)
            &&& new_bank[i].seed_name@ == old_bank[i].seed_name@
            &&& new_bank[i].cost == old_bank[i].cost
            &&& new_bank[i].ready == old_bank[i].ready
            &&& new_bank[i].affordable == old_bank[i].affordable
        }
}

/// What a click on a bank packet did.
#[derive(Clone, Copy, Debug, PartialEq, Eq, Structural)]
pub enum SlotPick {
    /// The packet is now the only selection (the shovel is dropped).
    Selected,
    /// The packet costs more sun than there is: the selection is cleared.
    TooPoor,
    /// Recharging packet, or no packet there: nothing changed.
    Ignored,
}

/// Clicking bank packet `idx`: a ready, affordable packet becomes the only
/// selection (dropping the shovel); an unaffordable one clears the
/// selection; a recharging one, or a slot past the bank, does nothing.
pub fn pick_seed_slot(ui: &mut PilotUi, idx: usize) -> (p: SlotPick)
    ensures
        idx >= old(ui).seed_bank@.len() ==> p == SlotPick::Ignored && final(ui)@ == old(ui)@,
        idx < old(ui).seed_bank@.len() ==> {
            let s = old(ui).seed_bank@[idx as int];
            if s.ready && s.affordable {
                &&& p == SlotPick::Selected
                &&& reselected(old(ui).seed_bank@, final(ui).seed_bank@, idx as int)
                &&& final(ui)@ == (UiView {
                    seed_bank: final(ui).seed_bank@,
                    shovel_selected: false,
                    ..old(ui)@
                })
            } else if !s.affordable {
                &&& p == SlotPick::TooPoor
                &&& deselected(old(ui).seed_bank@, final(ui).seed_bank@)
                &&& final(ui)@ == (UiView { seed_bank: final(ui).seed_bank@, ..old(ui)@ })
            } else {
                &&& p == SlotPick::Ignored
                &&& final(ui)@ == old(ui)@
            }
        },
{
    if idx >= ui.seed_bank.len() {
        return SlotPick::Ignored;
    }
    let ready = ui.seed_bank[idx].ready;
    let affordable = ui.seed_bank[idx].affordable;
    if ready && affordable {
        let mut i: usize = 0;
        while i < ui.seed_bank.len()
            invariant
                i <= ui.seed_bank@.len(),
                ui.seed_bank@.len() == old(ui).seed_bank@.len(),
                idx < ui.seed_bank@.len(),
                forall|j: int| 0 <= j < i ==> (#[trigger] ui.seed_bank@[j]).selected == (j == idx),
                forall|j: int|
                    0 <= j < ui.seed_bank@.len() ==> {
                        &&& (#[trigger] ui.seed_bank@[j]).seed_name@ == old(ui).seed_bank@[j].seed_name@
                        &&& ui.seed_bank@[j].cost == old(ui).seed_bank@[j].cost
                        &&& ui.seed_bank@[j].ready == old(ui).seed_bank@[j].ready
                        &&& ui.seed_bank@[j].affordable == old(ui).seed_bank@[j].affordable
                    },
                ui@ == (UiView { seed_bank: ui.seed_bank@, ..old(ui)@ }),
            decreases old(ui).seed_bank@.len() - i,
        {
            let mut slot = ui.seed_bank.remove(i);
            slot.selected = i == idx;
            ui.seed_bank.insert(i, slot);
            i = i + 1;
        }
        ui.shovel_selected = false;
        SlotPick::Selected
    } else if !affordable {
        clear_selection(ui);
        SlotPick::TooPoor
    } else {
        SlotPick::Ignored
    }
}

/// Clicking a bank packet in game (see `pick_seed_slot`); an unaffordable
/// packet also opens the not-enough-sun overlay.
pub fn select_seed(ui: &mut PilotUi, flow: &mut FlowControl, idx: usize) -> (p: SlotPick)
    ensures
        idx >= old(ui).seed_bank@.len() ==> p == SlotPick::Ignored && final(ui)@ == old(ui)@,
        idx < old(ui).seed_bank@.len() ==> {
            let s = old(ui).seed_bank@[idx as int];
            if s.ready && s.affordable {
                &&& p == SlotPick::Selected
                &&& reselected(old(ui).seed_bank@, final(ui).seed_bank@, idx as int)
                &&& final(ui)@ == (UiView {
                    seed_bank: final(ui).seed_bank@,
                    shovel_selected: false,
                    ..old(ui)@
                })
            } else if !s.affordable {
                &&& p == SlotPick::TooPoor
                &&& deselected(old(ui).seed_bank@, final(ui).seed_bank@)
                &&& final(ui)@ == (UiView { seed_bank: final(ui).seed_bank@, ..old(ui)@ })
            } else {
                &&& p == SlotPick::Ignored
                &&& final(ui)@ == old(ui)@
            }
        },
        p == SlotPick::TooPoor ==> *final(flow) == (FlowControl {
            overlay: Overlay::NotEnoughSun,
            ..*old(flow)
        }),
        p != SlotPick::TooPoor ==> *final(flow) == *old(flow),
{
    let p = pick_seed_slot(ui, idx);
    if p == SlotPick::TooPoor {
        flow.overlay = Overlay::NotEnoughSun;
    }
    p
}

/// Toggles the shovel; picking it up drops any packet selection.
pub fn toggle_shovel(ui: &mut PilotUi)
    ensures
        final(ui).shovel_selected == !old(ui).shovel_selected,
        final(ui).shovel_selected ==> deselected(old(ui).seed_bank@, final(ui).seed_bank@),
        !final(ui).shovel_selected ==> final(ui).seed_bank@ == old(ui).seed_bank@,
        final(ui)@ == (UiView {
            seed_bank: final(ui).seed_bank@,
            shovel_selected: final(ui).shovel_selected,
            ..old(ui)@
        }),
        final(ui).adventure_level == old(ui).adventure_level,
        final(ui).phase == old(ui).phase,
{
    ui.shovel_selected = !ui.shovel_selected;
    if ui.shovel_selected {
        clear_selection(ui);
    }
}

/// Publishes the sun count and per-packet readiness to the HUD: a packet is
/// ready once its recharge countdown is done, affordable when the sun
/// covers its cost.
pub fn sync_ui(board: &Board, runtime: &SeedBankRuntime, ui: &mut PilotUi)
    ensures
        final(ui).sun == board.sun,
        final(ui).seed_bank@.len() == old(ui).seed_bank@.len(),
        forall|i: int|
            0 <= i < final(ui).seed_bank@.len() ==> {
                &&& (#[trigger] final(ui).seed_bank@[i]).seed_name@ == old(ui).seed_bank@[i].seed_name@
                &&& final(ui).seed_bank@[i].cost == old(ui).seed_bank@[i].cost
                &&& final(ui).seed_bank@[i].selected == old(ui).seed_bank@[i].selected
                &&& final(ui).seed_bank@[i].affordable == (board.sun >= old(ui).seed_bank@[i].cost)
                &&& final(ui).seed_bank@[i].ready == (if i < runtime.recharge_remaining@.len() {
                    runtime.recharge_remaining@[i] <= 0
                } else {
                    true
                })
            },
        final(ui).adventure_level == old(ui).adventure_level,
        final(ui).phase == old(ui).phase,
        final(ui).shovel_selected == old(ui).shovel_selected,
        final(ui)@ == (UiView { sun: board.sun, seed_bank: final(ui).seed_bank@, ..old(ui)@ }),
{
    ui.sun = board.sun;
    let mut i: usize = 0;
    while i < ui.seed_bank.len()
        invariant
            i <= ui.seed_bank@.len(),
            ui.sun == board.sun,
            ui.seed_bank@.len() == old(ui).seed_bank@.len(),
            forall|j: int|
                0 <= j < ui.seed_bank@.len() ==> {
                    &&& (#[trigger] ui.seed_bank@[j]).seed_name@ == old(ui).seed_bank@[j].seed_name@
                    &&& ui.seed_bank@[j].cost == old(ui).seed_bank@[j].cost
                    &&& ui.seed_bank@[j].selected == old(ui).seed_bank@[j].selected
                },
            forall|j: int|
                0 <= j < i ==> {
                    &&& (#[trigger] ui.seed_bank@[j]).affordable == (board.sun >= old(ui).seed_bank@[j].cost)
                    &&& ui.seed_bank@[j].ready == (if j < runtime.recharge_remaining@.len() {
                        runtime.recharge_remaining@[j] <= 0
                    } else {
                        true
                    })
                },
            ui.adventure_level == old(ui).adventure_level,
            ui.phase == old(ui).phase,
            ui.shovel_selected == old(ui).shovel_selected,
            ui@ == (UiView { sun: board.sun, seed_bank: ui.seed_bank@, ..old(ui)@ }),
        decreases old(ui).seed_bank@.len() - i,
    {
        let rem = runtime.remaining(i);
        let mut slot = ui.seed_bank.remove(i);
        slot.ready = rem <= 0;
        slot.affordable = board.sun >= slot.cost;
        ui.seed_bank.insert(i, slot);
        i = i + 1;
    }
}

} // verus!
