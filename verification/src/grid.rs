//! The grid, its coordinates and the neighbourhood of a cell.
//!
//! A generation is modelled as the set of coordinates of its live cells.
//! Coordinates are plain integers, so a neighbour of an edge cell that would
//! lie outside the grid is simply a coordinate that no canvas holds: nothing
//! wraps around.

use vstd::prelude::*;

verus! {

/// Number of columns of the grid.
pub const WIDTH: usize = 32;

/// Number of rows of the grid.
pub const HEIGHT: usize = 32;

/// The value a dead cell holds.
pub const DEAD: u8 = 0;

/// The one value that is written for a live cell.
pub const ALIVE: u8 = 255;

/// The cells of one generation, column by column: `canvas[x][y]` is the cell
/// in column `x` and row `y`. A cell is dead when it holds zero and alive
/// otherwise.
pub type Canvas = [[u8; HEIGHT]; WIDTH];

/// One generation as mathematics: the coordinates `(x, y)` of its live cells.
pub type Generation = Set<(int, int)>;

/// Whether `(x, y)` names a cell of the grid.
pub open spec fn in_grid(x: int, y: int) -> bool {
    0 <= x < WIDTH && 0 <= y < HEIGHT
}

/// Whether `(x, y)` is a cell of the grid that is alive in `canvas`.
pub open spec fn alive_at(canvas: Canvas, x: int, y: int) -> bool {
    in_grid(x, y) && canvas[x][y] != 0
}

/// The generation that `canvas` holds.
pub open spec fn live_cells(canvas: Canvas) -> Generation {
    Set::new(|cell: (int, int)| alive_at(canvas, cell.0, cell.1))
}

/// One if `(x, y)` is alive in `generation`, zero if not.
pub open spec fn population_at(generation: Generation, x: int, y: int) -> nat {
    if generation.contains((x, y)) {
        1
    } else {
        0
    }
}

/// The number of live cells among the eight cells around `(x, y)`.
pub open spec fn live_neighbours(generation: Generation, x: int, y: int) -> nat {
    population_at(generation, x - 1, y - 1) + population_at(generation, x, y - 1)
        + population_at(generation, x + 1, y - 1) + population_at(generation, x + 1, y)
        + population_at(generation, x + 1, y + 1) + population_at(generation, x, y + 1)
        + population_at(generation, x - 1, y + 1) + population_at(generation, x - 1, y)
}

/// Whether `(x, y)` names a cell of the grid. The comparison is made on
/// signed numbers, before any of them is used as an index.
pub fn in_bounds(x: i64, y: i64) -> (inside: bool)
    ensures
        inside == in_grid(x as int, y as int),
{
    0 <= x && x < WIDTH as i64 && 0 <= y && y < HEIGHT as i64
}

/// Whether `(x, y)` is a cell of the grid that is alive in `canvas`.
/// Coordinates outside the grid name no cell, so the answer for them is
/// `false`.
pub fn is_alive(canvas: &Canvas, x: i64, y: i64) -> (alive: bool)
    ensures
        alive == alive_at(*canvas, x as int, y as int),
{
    if in_bounds(x, y) {
        canvas[x as usize][y as usize] != DEAD
    } else {
        false
    }
}

/// Counts the live cells among the eight cells around `(x, y)`. Neighbours
/// that would lie outside the grid do not exist and are not counted.
pub fn count_neighbours(x: usize, y: usize, canvas: Canvas) -> (neighbours: u8)
    ensures
        neighbours == live_neighbours(live_cells(canvas), x as int, y as int),
        neighbours <= 8,
{
    if x > WIDTH || y > HEIGHT {
        // Farther than one step from the grid: no neighbour is a cell.
        return 0;
    }
    let file: i64 = x as i64;
    let rank: i64 = y as i64;
    let mut neighbours: u8 = 0;

    if is_alive(&canvas, file - 1, rank - 1) {
        neighbours += 1;
    }
    if is_alive(&canvas, file, rank - 1) {
        neighbours += 1;
    }
    if is_alive(&canvas, file + 1, rank - 1) {
        neighbours += 1;
    }
    if is_alive(&canvas, file + 1, rank) {
        neighbours += 1;
    }
    if is_alive(&canvas, file + 1, rank + 1) {
        neighbours += 1;
    }
    if is_alive(&canvas, file, rank + 1) {
        neighbours += 1;
    }
    if is_alive(&canvas, file - 1, rank + 1) {
        neighbours += 1;
    }
    if is_alive(&canvas, file - 1, rank) {
        neighbours += 1;
    }
    neighbours
}

} // verus!
