//! The transition rule: what a cell becomes, and what a generation becomes.

use vstd::prelude::*;
use crate::grid::{in_grid, live_neighbours, Generation};

verus! {

/// Whether a cell is alive in the next generation, given whether it is alive
/// now and how many of its neighbours are: a cell with three live neighbours
/// is alive, a live cell with two stays alive, every other cell is dead.
pub open spec fn rule(alive: bool, neighbours: nat) -> bool {
    neighbours == 3 || (alive && neighbours == 2)
}

/// Whether every live cell of `generation` is a cell of the grid.
pub open spec fn within_grid(generation: Generation) -> bool {
    forall|x: int, y: int| #[trigger] generation.contains((x, y)) ==> in_grid(x, y)
}

/// The generation that follows `generation`. Every cell of the grid is
/// judged by `generation` alone; outside the grid nothing lives.
pub open spec fn evolve(generation: Generation) -> Generation {
    Set::new(
        |cell: (int, int)|
            in_grid(cell.0, cell.1) && rule(
                generation.contains(cell),
                live_neighbours(generation, cell.0, cell.1),
            ),
    )
}

/// Whether `generation` is a still life: the generation that follows it is
/// `generation` itself.
pub open spec fn is_still_life(generation: Generation) -> bool {
    evolve(generation) == generation
}

/// Applies the rule to one cell: a live cell survives with two or three live
/// neighbours, a dead cell comes alive with exactly three.
pub fn next_state(alive: bool, neighbours: u8) -> (next: bool)
    ensures
        next == rule(alive, neighbours as nat),
{
    if alive {
        neighbours == 2 || neighbours == 3
    } else {
        neighbours == 3
    }
}

} // verus!
