//! Cells of the grid and the wraparound that makes the grid a torus.

use crate::config::Config;
use crate::direction::Direction;
use vstd::prelude::*;

verus! {

/// One location of the grid: its column `x` and its row `y`, counted from 0.
#[derive(Clone, Copy, Debug, PartialEq, Eq, Structural)]
pub struct Cell {
    pub x: u32,
    pub y: u32,
}

/// A coordinate after one step, brought back into a dimension of `max`
/// cells: below 0 it becomes the last coordinate, at `max` or above it
/// becomes 0, and in between it stays.
pub open spec fn spec_wrap(val: int, max: int) -> int {
    if val < 0 {
        max - 1
    } else if val >= max {
        0
    } else {
        val
    }
}

/// Wraps `val` around a dimension of `max` cells.
///
/// For a positive `max` the result is a coordinate of the dimension.
pub fn wrap(val: i64, max: i64) -> (wrapped: i64)
    requires
        val < 0 ==> max > i64::MIN,
    ensures
        wrapped == spec_wrap(val as int, max as int),
        max > 0 ==> 0 <= wrapped < max,
{
    if val < 0 {
        max - 1
    } else if val >= max {
        0
    } else {
        val
    }
}

/// The wraparound keeps every coordinate of a dimension, sends the step
/// below 0 to the last coordinate and the step past the last to 0, and
/// never leaves the dimension.
pub proof fn lemma_wrap_laws(val: int, max: int)
    requires
        max > 0,
    ensures
        0 <= spec_wrap(val, max) < max,
        spec_wrap(-1, max) == max - 1,
        spec_wrap(max, max) == 0,
        0 <= val < max ==> spec_wrap(val, max) == val,
{
}

impl Cell {
    /// Whether the cell lies on the grid of `config`.
    pub open spec fn in_grid(self, config: Config) -> bool {
        self.x < config.spec_width() && self.y < config.spec_height()
    }

    /// The cell one step from this one in `direction`, before wraparound,
    /// as a column and a row.
    pub open spec fn stepped(self, direction: Direction) -> (int, int) {
        match direction {
            Direction::Up => (self.x as int, self.y - 1),
            Direction::Down => (self.x as int, self.y + 1),
            Direction::Left => (self.x - 1, self.y as int),
            Direction::Right => (self.x + 1, self.y as int),
        }
    }

    /// The cell that a head on this cell moves to in `direction`: one step
    /// along the direction's axis, then wraparound on each axis by itself.
    pub open spec fn spec_next(self, direction: Direction, config: Config) -> Cell {
        let (x, y) = self.stepped(direction);
        Cell {
            x: spec_wrap(x, config.spec_width() as int) as u32,
            y: spec_wrap(y, config.spec_height() as int) as u32,
        }
    }

    /// The cell of column `x` and row `y`.
    pub fn new(x: u32, y: u32) -> (cell: Cell)
        ensures
            cell.x == x,
            cell.y == y,
    {
        Cell { x, y }
    }

    /// The cell that a head on this cell moves to in `direction`. It lies
    /// on the grid, wherever this cell lies.
    pub fn next(self, direction: Direction, config: &Config) -> (cell: Cell)
        requires
            config.has_cells(),
        ensures
            cell == self.spec_next(direction, *config),
            cell.in_grid(*config),
            cell.x == spec_wrap(self.stepped(direction).0, config.spec_width() as int),
            cell.y == spec_wrap(self.stepped(direction).1, config.spec_height() as int),
    {
        let head_x: i64 = self.x as i64;
        let head_y: i64 = self.y as i64;
        let (new_x, new_y) = match direction {
            Direction::Up => (head_x, head_y - 1),
            Direction::Down => (head_x, head_y + 1),
            Direction::Left => (head_x - 1, head_y),
            Direction::Right => (head_x + 1, head_y),
        };
        let new_x: i64 = wrap(new_x, config.width() as i64);
        let new_y: i64 = wrap(new_y, config.height() as i64);
        Cell { x: new_x as u32, y: new_y as u32 }
    }
}

/// On a grid with cells, a head that stands on the grid moves by one along
/// the axis of its direction and keeps its other coordinate; at an edge it
/// comes back in at the opposite edge.
pub proof fn lemma_next_on_grid(cell: Cell, direction: Direction, config: Config)
    requires
        config.has_cells(),
        cell.in_grid(config),
    ensures
        cell.spec_next(direction, config).in_grid(config),
        direction == Direction::Right ==> cell.spec_next(direction, config) == (Cell {
            x: if cell.x + 1 == config.spec_width() {
                0
            } else {
                (cell.x + 1) as u32
            },
            y: cell.y,
        }),
        direction == Direction::Left ==> cell.spec_next(direction, config) == (Cell {
            x: if cell.x == 0 {
                (config.spec_width() - 1) as u32
            } else {
                (cell.x - 1) as u32
            },
            y: cell.y,
        }),
        direction == Direction::Down ==> cell.spec_next(direction, config) == (Cell {
            x: cell.x,
            y: if cell.y + 1 == config.spec_height() {
                0
            } else {
                (cell.y + 1) as u32
            },
        }),
        direction == Direction::Up ==> cell.spec_next(direction, config) == (Cell {
            x: cell.x,
            y: if cell.y == 0 {
                (config.spec_height() - 1) as u32
            } else {
                (cell.y - 1) as u32
            },
        }),
{
}

} // verus!
