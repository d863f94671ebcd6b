//! The driver owns the grid and the generation counter and advances the
//! simulation in response to control events from the shell.
//!
//! Pacing is frame-driven: the shell hands in the wall time elapsed since
//! the previous frame, the driver accumulates it, and one tick fires when
//! the accumulator exceeds the configured interval. Time is carried in whole
//! milliseconds.

use vstd::prelude::*;
use crate::grid::Grid;
use crate::grid::all_dead;
use crate::grid::clocked;
use crate::grid::same_cells;
use crate::grid::same_dimensions;
use crate::grid::toggled;

verus! {

/// Upper bound on the pause between automatic ticks, in milliseconds.
pub const MAX_INTERVAL_MS: u64 = 5000;

/// Pause between automatic ticks when nothing else is configured.
pub const DEFAULT_INTERVAL_MS: u64 = 1000;

/// Drives the simulation: either `Idle` (ticks only on `step`) or
/// auto-advancing (ticks whenever enough wall time has accumulated).
pub struct Driver {
    grid: Grid,
    generation: u64,
    auto_advance: bool,
    interval_ms: u64,
    acc_ms: u64,
}

impl Driver {
    /// The grid the driver owns.
    pub closed spec fn spec_grid(self) -> Grid {
        self.grid
    }

    /// Ticks counted since creation or the last `clear`.
    pub closed spec fn spec_generation(self) -> u64 {
        self.generation
    }

    /// Whether the driver is in automatic-advance mode.
    pub closed spec fn spec_auto(self) -> bool {
        self.auto_advance
    }

    /// Target wall time between automatic ticks, in milliseconds.
    pub closed spec fn spec_interval_ms(self) -> u64 {
        self.interval_ms
    }

    /// Wall time accumulated towards the next automatic tick.
    pub closed spec fn spec_acc_ms(self) -> u64 {
        self.acc_ms
    }

    /// Well-formedness: the grid is well formed and the interval is within
    /// the configured closed range.
    pub open spec fn wf(self) -> bool {
        self.spec_grid().wf() && self.spec_interval_ms() <= MAX_INTERVAL_MS
    }

    /// The accumulator after `elapsed_ms` more milliseconds, saturating at
    /// the machine bound.
    pub open spec fn spec_accumulated(self, elapsed_ms: u64) -> int {
        if self.spec_acc_ms() + elapsed_ms <= u64::MAX {
            self.spec_acc_ms() + elapsed_ms
        } else {
            u64::MAX as int
        }
    }

    /// Takes ownership of a grid; the simulation starts idle, at generation
    /// zero, with the default interval and an empty accumulator.
    pub fn new(grid: Grid) -> (r: Driver)
        requires
            grid.wf(),
        ensures
            r.wf(),
            r.spec_grid() == grid,
            r.spec_generation() == 0,
            !r.spec_auto(),
            r.spec_interval_ms() == DEFAULT_INTERVAL_MS,
            r.spec_acc_ms() == 0,
    {
        Driver {
            grid,
            generation: 0,
            auto_advance: false,
            interval_ms: DEFAULT_INTERVAL_MS,
            acc_ms: 0,
        }
    }

    /// Advances exactly one generation and counts it.
    pub fn step(&mut self)
        requires
            old(self).wf(),
            old(self).spec_generation() < u64::MAX,
        ensures
            final(self).wf(),
            clocked(old(self).spec_grid(), final(self).spec_grid()),
            final(self).spec_generation() == old(self).spec_generation() + 1,
            final(self).spec_auto() == old(self).spec_auto(),
            final(self).spec_interval_ms() == old(self).spec_interval_ms(),
            final(self).spec_acc_ms() == old(self).spec_acc_ms(),
    {
        self.grid.clock();
        self.generation = self.generation + 1;
    }

    /// Enters automatic-advance mode; nothing else changes.
    pub fn start_auto(&mut self)
        requires
            old(self).wf(),
        ensures
            final(self).wf(),
            final(self).spec_auto(),
            final(self).spec_grid() == old(self).spec_grid(),
            final(self).spec_generation() == old(self).spec_generation(),
            final(self).spec_interval_ms() == old(self).spec_interval_ms(),
            final(self).spec_acc_ms() == old(self).spec_acc_ms(),
    {
        self.auto_advance = true;
    }

    /// Leaves automatic-advance mode; nothing else changes.
    pub fn stop_auto(&mut self)
        requires
            old(self).wf(),
        ensures
            final(self).wf(),
            !final(self).spec_auto(),
            final(self).spec_grid() == old(self).spec_grid(),
            final(self).spec_generation() == old(self).spec_generation(),
            final(self).spec_interval_ms() == old(self).spec_interval_ms(),
            final(self).spec_acc_ms() == old(self).spec_acc_ms(),
    {
        self.auto_advance = false;
    }

    /// Sets the target wall time between automatic ticks, clamped into
    /// `[0, MAX_INTERVAL_MS]`.
    pub fn set_interval_ms(&mut self, ms: u64)
        requires
            old(self).wf(),
        ensures
            final(self).wf(),
            final(self).spec_interval_ms() == if ms <= MAX_INTERVAL_MS {
                ms
            } else {
                MAX_INTERVAL_MS
            },
            final(self).spec_grid() == old(self).spec_grid(),
            final(self).spec_generation() == old(self).spec_generation(),
            final(self).spec_auto() == old(self).spec_auto(),
            final(self).spec_acc_ms() == old(self).spec_acc_ms(),
    {
        self.interval_ms = if ms > MAX_INTERVAL_MS {
            MAX_INTERVAL_MS
        } else {
            ms
        };
    }

    /// Forwards a click to the grid and leaves automatic-advance mode:
    /// a manual edit pauses the simulation.
    pub fn toggle_cell(&mut self, x: usize, y: usize)
        requires
            old(self).wf(),
        ensures
            final(self).wf(),
            !final(self).spec_auto(),
            old(self).spec_grid().spec_in_bounds(x as int, y as int)
                ==> toggled(old(self).spec_grid(), final(self).spec_grid(), x as int, y as int),
            !old(self).spec_grid().spec_in_bounds(x as int, y as int)
                ==> same_cells(old(self).spec_grid(), final(self).spec_grid()),
            final(self).spec_generation() == old(self).spec_generation(),
            final(self).spec_interval_ms() == old(self).spec_interval_ms(),
            final(self).spec_acc_ms() == old(self).spec_acc_ms(),
    {
        self.auto_advance = false;
        self.grid.change_state_click(x, y);
    }

    /// Resets the grid, zeroes the generation counter and leaves
    /// automatic-advance mode.
    pub fn clear(&mut self)
        requires
            old(self).wf(),
        ensures
            final(self).wf(),
            same_dimensions(old(self).spec_grid(), final(self).spec_grid()),
            all_dead(final(self).spec_grid()),
            final(self).spec_generation() == 0,
            !final(self).spec_auto(),
            final(self).spec_interval_ms() == old(self).spec_interval_ms(),
            final(self).spec_acc_ms() == old(self).spec_acc_ms(),
    {
        self.grid.reset();
        self.generation = 0;
        self.auto_advance = false;
    }

    /// Accounts for `elapsed_ms` more milliseconds of wall time. In
    /// automatic mode, once the accumulated time exceeds the interval, one
    /// tick fires and the accumulator starts over from zero; otherwise the
    /// time is only accumulated.
    pub fn advance(&mut self, elapsed_ms: u64)
        requires
            old(self).wf(),
            old(self).spec_generation() < u64::MAX,
        ensures
            final(self).wf(),
            final(self).spec_auto() == old(self).spec_auto(),
            final(self).spec_interval_ms() == old(self).spec_interval_ms(),
            (old(self).spec_auto()
                && old(self).spec_accumulated(elapsed_ms) > old(self).spec_interval_ms()) ==> {
                &&& clocked(old(self).spec_grid(), final(self).spec_grid())
                &&& final(self).spec_generation() == old(self).spec_generation() + 1
                &&& final(self).spec_acc_ms() == 0
            },
            !(old(self).spec_auto()
                && old(self).spec_accumulated(elapsed_ms) > old(self).spec_interval_ms()) ==> {
                &&& final(self).spec_grid() == old(self).spec_grid()
                &&& final(self).spec_generation() == old(self).spec_generation()
                &&& final(self).spec_acc_ms() == old(self).spec_accumulated(elapsed_ms)
            },
    {
        let total = if elapsed_ms > u64::MAX - self.acc_ms {
            u64::MAX
        } else {
            self.acc_ms + elapsed_ms
        };
        if self.auto_advance && total > self.interval_ms {
            self.grid.clock();
            self.generation = self.generation + 1;
            self.acc_ms = 0;
        } else {
            self.acc_ms = total;
        }
    }

    /// The dimensions of the grid and the generation counter, for rendering.
    pub fn snapshot(&self) -> (r: ((usize, usize), u64))
        ensures
            r.0.0 == self.spec_grid().spec_width(),
            r.0.1 == self.spec_grid().spec_height(),
            r.1 == self.spec_generation(),
    {
        (self.grid.dimensions(), self.generation)
    }

    /// A read-only view of the grid, for rendering.
    pub fn grid(&self) -> (r: &Grid)
        ensures
            *r == self.spec_grid(),
    {
        &self.grid
    }

    /// The generation counter.
    pub fn generation(&self) -> (r: u64)
        ensures
            r == self.spec_generation(),
    {
        self.generation
    }

    /// Whether the driver is in automatic-advance mode.
    pub fn is_auto_advancing(&self) -> (r: bool)
        ensures
            r == self.spec_auto(),
    {
        self.auto_advance
    }

    /// The target wall time between automatic ticks, in milliseconds.
    pub fn interval_ms(&self) -> (r: u64)
        ensures
            r == self.spec_interval_ms(),
    {
        self.interval_ms
    }

    /// The wall time accumulated towards the next automatic tick.
    pub fn accumulated_ms(&self) -> (r: u64)
        ensures
            r == self.spec_acc_ms(),
    {
        self.acc_ms
    }
}

} // verus!
