//! The engine: one generation of cells, a pause flag and a step clock.
//!
//! The engine never reads a clock. Whoever drives it passes the current time
//! in, as milliseconds counted from an origin of the caller's choosing.

use vstd::prelude::*;
use crate::grid::{
    count_neighbours, in_bounds, in_grid, is_alive, live_cells, live_neighbours, Canvas,
    Generation, ALIVE, DEAD, HEIGHT, WIDTH,
};
use crate::rules::{evolve, is_still_life, next_state, within_grid};

verus! {

/// Milliseconds between two automatic steps of a new engine.
pub const DEFAULT_STEP_INTERVAL: u64 = 1000;

/// Why the engine refused a request.
#[derive(Clone, Copy, Debug, PartialEq, Eq)]
pub enum EngineError {
    /// The coordinates name no cell of the grid.
    OutOfBounds,
    /// The step interval is not positive.
    InvalidStepInterval,
}

/// What an engine is, as mathematics.
pub struct SimulationView {
    /// The coordinates of the live cells.
    pub live: Generation,
    /// Whether automatic stepping is suspended.
    pub paused: bool,
    /// Milliseconds between two automatic steps.
    pub step_interval: nat,
    /// When the last step was made, in the caller's milliseconds.
    pub last_step_time: nat,
}

impl SimulationView {
    /// What holds of every engine: its live cells lie in the grid, and its
    /// step interval is positive.
    pub open spec fn valid(self) -> bool {
        within_grid(self.live) && self.step_interval > 0
    }

    /// Whether an automatic step is due at `now`: the engine is not paused
    /// and at least the step interval has passed since the last step.
    pub open spec fn step_due(self, now: int) -> bool {
        !self.paused && now - self.last_step_time >= self.step_interval
    }
}

/// A Game of Life on a grid of `WIDTH` by `HEIGHT` cells.
pub struct Simulation {
    last_time: u64,
    paused: bool,
    wait_time: u64,
    cells: Canvas,
}

/// Whether every cell of `canvas` holds one of the two cell values.
spec fn canonical(canvas: Canvas) -> bool {
    forall|x: int, y: int|
        in_grid(x, y) ==> #[trigger] canvas[x][y] == DEAD || canvas[x][y] == ALIVE
}

/// `generation` with the cell at `(x, y)` made alive or dead.
pub open spec fn with_cell(generation: Generation, x: int, y: int, alive: bool) -> Generation {
    if alive {
        generation.insert((x, y))
    } else {
        generation.remove((x, y))
    }
}

impl View for Simulation {
    type V = SimulationView;

    closed spec fn view(&self) -> SimulationView {
        SimulationView {
            live: live_cells(self.cells),
            paused: self.paused,
            step_interval: self.wait_time as nat,
            last_step_time: self.last_time as nat,
        }
    }
}

impl Simulation {
    #[verifier::type_invariant]
    spec fn well_formed(self) -> bool {
        self.wait_time > 0 && canonical(self.cells)
    }

    /// An engine whose cells are all dead, paused, with the default step
    /// interval and its clock set to `now`.
    pub fn new(now: u64) -> (engine: Self)
        ensures
            engine@ == (SimulationView {
                live: Set::<(int, int)>::empty(),
                paused: true,
                step_interval: DEFAULT_STEP_INTERVAL as nat,
                last_step_time: now as nat,
            }),
            engine@.valid(),
    {
        let engine = Simulation {
            last_time: now,
            paused: true,
            wait_time: DEFAULT_STEP_INTERVAL,
            cells: [[DEAD; HEIGHT]; WIDTH],
        };
        assert(engine@.live =~= Set::<(int, int)>::empty());
        engine
    }

    /// Replaces the generation by the one that follows it and sets the clock
    /// to `now`. Every cell of the new generation is computed from the old
    /// generation alone. The pause flag and the step interval stay as they
    /// are.
    pub fn step(&mut self, now: u64)
        ensures
            final(self)@ == (SimulationView {
                live: evolve(old(self)@.live),
                last_step_time: now as nat,
                ..old(self)@
            }),
            final(self)@.valid(),
            // The clock starts anew: right after a step none is due.
            !final(self)@.step_due(now as int),
            // A still life stays as it is.
            is_still_life(old(self)@.live) ==> final(self)@.live == old(self)@.live,
            // Underpopulation: fewer than two live neighbours leave a cell dead.
            forall|x: int, y: int|
                #![trigger final(self)@.live.contains((x, y))]
                live_neighbours(old(self)@.live, x, y) <= 1 ==> !final(self)@.live.contains((x, y)),
            // Survival: a live cell with two or three live neighbours stays alive.
            forall|x: int, y: int|
                #![trigger final(self)@.live.contains((x, y))]
                in_grid(x, y) && old(self)@.live.contains((x, y)) && 2 <= live_neighbours(
                    old(self)@.live,
                    x,
                    y,
                ) <= 3 ==> final(self)@.live.contains((x, y)),
            // Birth: a dead cell with exactly three live neighbours comes alive.
            forall|x: int, y: int|
                #![trigger final(self)@.live.contains((x, y))]
                in_grid(x, y) && !old(self)@.live.contains((x, y)) && live_neighbours(
                    old(self)@.live,
                    x,
                    y,
                ) == 3 ==> final(self)@.live.contains((x, y)),
            // Overpopulation: four or more live neighbours leave a cell dead.
            forall|x: int, y: int|
                #![trigger final(self)@.live.contains((x, y))]
                live_neighbours(old(self)@.live, x, y) >= 4 ==> !final(self)@.live.contains((x, y)),
    {
        proof {
            use_type_invariant(&*self);
        }
        let ghost before = live_cells(self.cells);
        let mut future_cells: Canvas = [[DEAD; HEIGHT]; WIDTH];
        for x in 0..WIDTH
            invariant
                *self == *old(self),
                before == live_cells(self.cells),
                canonical(future_cells),
                forall|i: int, j: int|
                    x <= i < WIDTH && 0 <= j < HEIGHT ==> #[trigger] future_cells[i][j] == DEAD,
                forall|i: int, j: int|
                    0 <= i < x && 0 <= j < HEIGHT ==> (#[trigger] future_cells[i][j] != DEAD)
                        == evolve(before).contains((i, j)),
        {
            for y in 0..HEIGHT
                invariant
                    x < WIDTH,
                    *self == *old(self),
                    before == live_cells(self.cells),
                    canonical(future_cells),
                    forall|i: int, j: int|
                        x < i < WIDTH && 0 <= j < HEIGHT ==> #[trigger] future_cells[i][j] == DEAD,
                    forall|j: int| y <= j < HEIGHT ==> #[trigger] future_cells[x as int][j] == DEAD,
                    forall|i: int, j: int|
                        0 <= i < x && 0 <= j < HEIGHT ==> (#[trigger] future_cells[i][j] != DEAD)
                            == evolve(before).contains((i, j)),
                    forall|j: int|
                        0 <= j < y ==> (#[trigger] future_cells[x as int][j] != DEAD) == evolve(
                            before,
                        ).contains((x as int, j)),
            {
                let neighbours: u8 = count_neighbours(x, y, self.cells);
                let alive = self.cells[x][y] != DEAD;
                if next_state(alive, neighbours) {
                    future_cells[x][y] = ALIVE;
                }
            }
        }
        self.cells = future_cells;
        self.last_time = now;
        assert(live_cells(future_cells) =~= evolve(before));
    }

    /// Whether an automatic step is due at `now`: the engine is not paused
    /// and at least the step interval has passed since the last step. A
    /// `now` that lies before the last step leaves nothing due.
    pub fn should_step(&self, now: u64) -> (due: bool)
        ensures
            due == self@.step_due(now as int),
            self@.paused ==> !due,
    {
        !self.paused && now >= self.last_time && now - self.last_time >= self.wait_time
    }

    /// Suspends automatic stepping, or resumes it. Nothing else changes.
    pub fn toggle_pause(&mut self)
        ensures
            final(self)@ == (SimulationView { paused: !old(self)@.paused, ..old(self)@ }),
            final(self)@.valid(),
    {
        proof {
            use_type_invariant(&*self);
        }
        self.paused = !self.paused;
    }

    /// Makes the cell at `(x, y)` alive or dead. Coordinates outside the grid
    /// are refused with `OutOfBounds`, and the engine stays as it was.
    pub fn set_cell(&mut self, x: i64, y: i64, alive: bool) -> (outcome: Result<(), EngineError>)
        ensures
            in_grid(x as int, y as int) ==> outcome == Ok::<(), EngineError>(()),
            !in_grid(x as int, y as int) ==> outcome == Err::<(), EngineError>(
                EngineError::OutOfBounds,
            ),
            outcome is Ok ==> final(self)@ == (SimulationView {
                live: with_cell(old(self)@.live, x as int, y as int, alive),
                ..old(self)@
            }),
            outcome is Err ==> *final(self) == *old(self),
            final(self)@.valid(),
    {
        proof {
            use_type_invariant(&*self);
        }
        if !in_bounds(x, y) {
            return Err(EngineError::OutOfBounds);
        }
        let ghost before = live_cells(self.cells);
        let value: u8 = if alive {
            ALIVE
        } else {
            DEAD
        };
        self.cells[x as usize][y as usize] = value;
        assert(live_cells(self.cells) =~= with_cell(before, x as int, y as int, alive));
        Ok(())
    }

    /// Whether the cell at `(x, y)` is alive. Coordinates outside the grid
    /// are refused with `OutOfBounds`.
    pub fn cell_state(&self, x: i64, y: i64) -> (outcome: Result<bool, EngineError>)
        ensures
            outcome is Ok <==> in_grid(x as int, y as int),
            outcome matches Ok(alive) ==> alive == self@.live.contains((x as int, y as int)),
            outcome matches Err(error) ==> error == EngineError::OutOfBounds,
    {
        if !in_bounds(x, y) {
            return Err(EngineError::OutOfBounds);
        }
        Ok(is_alive(&self.cells, x, y))
    }

    /// Sets the time between two automatic steps, in milliseconds. An
    /// interval of zero is refused with `InvalidStepInterval`, and the engine
    /// stays as it was.
    pub fn set_step_interval(&mut self, millis: u64) -> (outcome: Result<(), EngineError>)
        ensures
            millis > 0 ==> outcome == Ok::<(), EngineError>(()),
            millis == 0 ==> outcome == Err::<(), EngineError>(EngineError::InvalidStepInterval),
            outcome is Ok ==> final(self)@ == (SimulationView {
                step_interval: millis as nat,
                ..old(self)@
            }),
            outcome is Err ==> *final(self) == *old(self),
            final(self)@.valid(),
    {
        proof {
            use_type_invariant(&*self);
        }
        if millis == 0 {
            return Err(EngineError::InvalidStepInterval);
        }
        self.wait_time = millis;
        Ok(())
    }

    /// Whether automatic stepping is suspended.
    pub fn is_paused(&self) -> (paused: bool)
        ensures
            paused == self@.paused,
    {
        self.paused
    }

    /// Milliseconds between two automatic steps; never zero.
    pub fn step_interval(&self) -> (millis: u64)
        ensures
            millis == self@.step_interval,
            millis > 0,
            self@.valid(),
    {
        proof {
            use_type_invariant(self);
        }
        self.wait_time
    }

    /// When the last step was made, in the caller's milliseconds.
    pub fn last_step_time(&self) -> (millis: u64)
        ensures
            millis == self@.last_step_time,
    {
        self.last_time
    }
}

impl Default for Simulation {
    /// The engine that `new` makes, with its clock at the origin.
    fn default() -> (engine: Self)
        ensures
            engine@ == (SimulationView {
                live: Set::<(int, int)>::empty(),
                paused: true,
                step_interval: DEFAULT_STEP_INTERVAL as nat,
                last_step_time: 0,
            }),
            engine@.valid(),
    {
        Simulation::new(0)
    }
}

} // verus!
