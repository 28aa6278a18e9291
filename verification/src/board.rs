//! The lawn: grid occupancy, sun bank, sky-sun timer and day/night stage.

use vstd::prelude::*;

use crate::constants::{LAWN_CELLS, LAWN_COLS, LAWN_ROWS, SKY_SUN_INTERVAL_TICKS, STARTING_SUN};

verus! {

/// Day/night stage of the current level (drives sky sun and lawn tint).
#[derive(Clone, Copy, Debug, PartialEq, Eq, Structural)]
pub enum Stage {
    Day,
    Night,
}

/// Lawn state. `cells` is row-major (`row * LAWN_COLS + col`); a cell holds
/// the id of the plant or crater occupying it.
#[derive(Debug)]
pub struct Board {
    pub cells: Vec<Option<u64>>,
    pub sun: i32,
    pub sun_collected_total: u32,
    pub sky_sun_timer: i32,
    pub stage: Stage,
}

/// Row-major index of a lawn cell.
pub open spec fn cell_index(col: int, row: int) -> int {
    row * LAWN_COLS + col
}

/// A cell on the lawn.
pub open spec fn on_lawn(col: int, row: int) -> bool {
    0 <= col < LAWN_COLS && 0 <= row < LAWN_ROWS
}

impl Board {
    /// The grid has one entry per lawn cell.
    pub open spec fn wf(&self) -> bool {
        self.cells@.len() == LAWN_CELLS
    }

    /// Occupant of a lawn cell.
    pub open spec fn at(&self, col: int, row: int) -> Option<u64> {
        self.cells@[cell_index(col, row)]
    }

    /// A fresh level's board: empty lawn, starting sun, full sky-sun timer, day.
    pub open spec fn is_fresh(&self) -> bool {
        &&& self.wf()
        &&& forall|i: int| 0 <= i < LAWN_CELLS ==> #[trigger] self.cells@[i] is None
        &&& self.sun == STARTING_SUN
        &&& self.sun_collected_total == 0
        &&& self.sky_sun_timer == SKY_SUN_INTERVAL_TICKS
        &&& self.stage == Stage::Day
    }

    /// Fresh board.
    pub fn new() -> (b: Board)
        ensures
            b.is_fresh(),
    {
        let mut cells: Vec<Option<u64>> = Vec::new();
        let mut i: usize = 0;
        while i < LAWN_CELLS
            invariant
                i <= LAWN_CELLS,
                cells@.len() == i,
                forall|j: int| 0 <= j < i ==> #[trigger] cells@[j] is None,
            decreases LAWN_CELLS - i,
        {
            cells.push(None);
            i = i + 1;
        }
        Board {
            cells,
            sun: STARTING_SUN,
            sun_collected_total: 0,
            sky_sun_timer: SKY_SUN_INTERVAL_TICKS,
            stage: Stage::Day,
        }
    }

    /// Back to a fresh board.
    pub fn reset(&mut self)
        ensures
            final(self).is_fresh(),
    {
        *self = Board::new();
    }

    /// Occupant of a lawn cell.
    pub fn cell(&self, col: usize, row: usize) -> (r: Option<u64>)
        requires
            self.wf(),
            on_lawn(col as int, row as int),
        ensures
            r == self.at(col as int, row as int),
    {
        self.cells[row * LAWN_COLS + col]
    }

    /// On the lawn and empty.
    pub fn can_plant(&self, col: usize, row: usize) -> (r: bool)
        requires
            self.wf(),
        ensures
            r == (on_lawn(col as int, row as int) && self.at(col as int, row as int) is None),
    {
        row < LAWN_ROWS && col < LAWN_COLS && self.cells[row * LAWN_COLS + col].is_none()
    }

    /// Puts `occupant` into a cell; the rest of the board is unchanged.
    pub fn set_cell(&mut self, col: usize, row: usize, occupant: Option<u64>)
        requires
            old(self).wf(),
            on_lawn(col as int, row as int),
        ensures
            final(self).wf(),
            final(self).cells@ == old(self).cells@.update(cell_index(col as int, row as int), occupant),
            final(self).sun == old(self).sun,
            final(self).sun_collected_total == old(self).sun_collected_total,
            final(self).sky_sun_timer == old(self).sky_sun_timer,
            final(self).stage == old(self).stage,
    {
        self.cells.set(row * LAWN_COLS + col, occupant);
    }

    /// Empties a cell and hands back what was there.
    pub fn take_cell(&mut self, col: usize, row: usize) -> (r: Option<u64>)
        requires
            old(self).wf(),
            on_lawn(col as int, row as int),
        ensures
            r == old(self).at(col as int, row as int),
            final(self).wf(),
            final(self).cells@ == old(self).cells@.update(cell_index(col as int, row as int), None),
            final(self).sun == old(self).sun,
            final(self).sun_collected_total == old(self).sun_collected_total,
            final(self).sky_sun_timer == old(self).sky_sun_timer,
            final(self).stage == old(self).stage,
    {
        let r = self.cells[row * LAWN_COLS + col];
        self.cells.set(row * LAWN_COLS + col, None);
        r
    }
}

impl Default for Board {
    fn default() -> (b: Board)
        ensures
            b.is_fresh(),
    {
        Board::new()
    }
}

} // verus!
