//! What holds of every generation: the edges of the grid, the reach of a
//! cell, and two well-known patterns.

use vstd::prelude::*;
use crate::grid::{
    in_grid, live_cells, live_neighbours, population_at, Canvas, Generation, HEIGHT, WIDTH,
};
use crate::rules::{evolve, is_still_life, within_grid};
use crate::simulation::with_cell;

verus! {

/// Whether `(x, y)` is one of the eight cells around `(centre_x, centre_y)`.
/// The distance is taken on plain integers: the two ends of a row or of a
/// column are not next to each other.
pub open spec fn adjacent(centre_x: int, centre_y: int, x: int, y: int) -> bool {
    centre_x - 1 <= x <= centre_x + 1 && centre_y - 1 <= y <= centre_y + 1 && !(x == centre_x && y
        == centre_y)
}

/// The eight cells around `(x, y)`.
pub open spec fn neighbourhood(x: int, y: int) -> Set<(int, int)> {
    Set::new(|cell: (int, int)| adjacent(x, y, cell.0, cell.1))
}

/// The two-by-two block of live cells whose corner with the smallest
/// coordinates is `(x, y)`.
pub open spec fn block(x: int, y: int) -> Generation {
    Set::new(|cell: (int, int)| x <= cell.0 <= x + 1 && y <= cell.1 <= y + 1)
}

/// Three live cells in a row, centred on `(x, y)`.
pub open spec fn blinker_flat(x: int, y: int) -> Generation {
    Set::new(|cell: (int, int)| x - 1 <= cell.0 <= x + 1 && cell.1 == y)
}

/// Three live cells in a column, centred on `(x, y)`.
pub open spec fn blinker_upright(x: int, y: int) -> Generation {
    Set::new(|cell: (int, int)| cell.0 == x && y - 1 <= cell.1 <= y + 1)
}

/// A canvas holds live cells inside the grid only, and so does every
/// generation that follows another.
pub proof fn lemma_nothing_lives_outside_grid(canvas: Canvas, generation: Generation)
    ensures
        within_grid(live_cells(canvas)),
        within_grid(evolve(generation)),
{
}

/// Reading a cell after writing it gives what was written, and writing one
/// cell leaves every other cell as it was.
pub proof fn lemma_write_then_read(generation: Generation, x: int, y: int, alive: bool)
    ensures
        with_cell(generation, x, y, alive).contains((x, y)) == alive,
        forall|i: int, j: int|
            !(i == x && j == y) ==> with_cell(generation, x, y, alive).contains((i, j))
                == generation.contains((i, j)),
{
}

/// `found` with `(x, y)` added if it is alive in `generation`.
spec fn gather(generation: Generation, found: Set<(int, int)>, x: int, y: int) -> Set<(int, int)> {
    if generation.contains((x, y)) {
        found.insert((x, y))
    } else {
        found
    }
}

/// Gathering a cell that was not found before adds one to the size if the
/// cell is alive, and nothing if it is dead.
proof fn lemma_gather(generation: Generation, found: Set<(int, int)>, x: int, y: int)
    requires
        found.finite(),
        !found.contains((x, y)),
    ensures
        gather(generation, found, x, y).finite(),
        gather(generation, found, x, y).len() == found.len() + population_at(generation, x, y),
{
}

/// The count at a cell is the number of live cells among the eight around
/// it.
pub proof fn lemma_count_is_cardinality(generation: Generation, x: int, y: int)
    ensures
        generation.intersect(neighbourhood(x, y)).finite(),
        live_neighbours(generation, x, y) == generation.intersect(neighbourhood(x, y)).len(),
{
    let none = Set::<(int, int)>::empty();
    let one = gather(generation, none, x - 1, y - 1);
    let two = gather(generation, one, x, y - 1);
    let three = gather(generation, two, x + 1, y - 1);
    let four = gather(generation, three, x + 1, y);
    let five = gather(generation, four, x + 1, y + 1);
    let six = gather(generation, five, x, y + 1);
    let seven = gather(generation, six, x - 1, y + 1);
    let eight = gather(generation, seven, x - 1, y);
    lemma_gather(generation, none, x - 1, y - 1);
    lemma_gather(generation, one, x, y - 1);
    lemma_gather(generation, two, x + 1, y - 1);
    lemma_gather(generation, three, x + 1, y);
    lemma_gather(generation, four, x + 1, y + 1);
    lemma_gather(generation, five, x, y + 1);
    lemma_gather(generation, six, x - 1, y + 1);
    lemma_gather(generation, seven, x - 1, y);
    assert(eight =~= generation.intersect(neighbourhood(x, y)));
}

/// The count at a cell depends on the eight cells around it and on no
/// other: two generations that agree there give the same count. A cell on
/// the far side of the grid is never one of the eight.
pub proof fn lemma_count_is_local(first: Generation, second: Generation, x: int, y: int)
    requires
        forall|i: int, j: int|
            adjacent(x, y, i, j) ==> #[trigger] first.contains((i, j)) == second.contains((i, j)),
    ensures
        live_neighbours(first, x, y) == live_neighbours(second, x, y),
{
}

/// What a cell becomes depends on the cell and the eight around it, in the
/// generation before, and on nothing else.
pub proof fn lemma_evolve_is_local(first: Generation, second: Generation, x: int, y: int)
    requires
        first.contains((x, y)) == second.contains((x, y)),
        forall|i: int, j: int|
            adjacent(x, y, i, j) ==> #[trigger] first.contains((i, j)) == second.contains((i, j)),
    ensures
        evolve(first).contains((x, y)) == evolve(second).contains((x, y)),
{
    lemma_count_is_local(first, second, x, y);
}

/// A cell in a corner of the grid has at most three live neighbours, and a
/// cell on an edge at most five: beyond the edge there is nothing to count.
pub proof fn lemma_edges_count_inside_only(generation: Generation, x: int, y: int)
    requires
        within_grid(generation),
        in_grid(x, y),
    ensures
        x == 0 || x == WIDTH - 1 || y == 0 || y == HEIGHT - 1 ==> live_neighbours(generation, x, y)
            <= 5,
        (x == 0 || x == WIDTH - 1) && (y == 0 || y == HEIGHT - 1) ==> live_neighbours(
            generation,
            x,
            y,
        ) <= 3,
{
}

/// A cell whose neighbours inside the grid are all dead is dead in the next
/// generation, whatever else the generation holds. So a live cell in a
/// corner with its three neighbours dead dies.
pub proof fn lemma_lonely_cell_dies(generation: Generation, x: int, y: int)
    requires
        within_grid(generation),
        forall|i: int, j: int|
            adjacent(x, y, i, j) && in_grid(i, j) ==> !#[trigger] generation.contains((i, j)),
    ensures
        live_neighbours(generation, x, y) == 0,
        !evolve(generation).contains((x, y)),
{
}

/// A block that fits in the grid is a still life: the generation that
/// follows it is the block itself.
pub proof fn lemma_block_is_still(x: int, y: int)
    requires
        in_grid(x, y),
        in_grid(x + 1, y + 1),
    ensures
        is_still_life(block(x, y)),
{
    assert(evolve(block(x, y)) =~= block(x, y));
}

/// A blinker with room around it turns from flat to upright and back: after
/// two steps it is what it was.
pub proof fn lemma_blinker_oscillates(x: int, y: int)
    requires
        in_grid(x - 1, y - 1),
        in_grid(x + 1, y + 1),
    ensures
        evolve(blinker_flat(x, y)) == blinker_upright(x, y),
        evolve(blinker_upright(x, y)) == blinker_flat(x, y),
        evolve(evolve(blinker_flat(x, y))) == blinker_flat(x, y),
{
    assert(evolve(blinker_flat(x, y)) =~= blinker_upright(x, y));
    assert(evolve(blinker_upright(x, y)) =~= blinker_flat(x, y));
}

} // verus!
