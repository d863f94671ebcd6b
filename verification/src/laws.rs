//! Global properties of the grid, stated over the same spec functions and
//! relations that the executable operations promise in their contracts, and
//! proved once and for all.

use vstd::prelude::*;
use crate::grid::Grid;
use crate::grid::all_dead;
use crate::grid::clocked;
use crate::grid::same_cells;
use crate::grid::same_dimensions;
use crate::grid::toggled;

verus! {

/// Only the 2x2 block with lower corner `(x, y)` is alive.
pub open spec fn only_block_live(g: Grid, x: int, y: int) -> bool {
    forall|a: int, b: int|
        g.spec_in_bounds(a, b) ==> (g.spec_cell(a, b) <==> (x <= a <= x + 1 && y <= b <= y + 1))
}

/// Resetting twice is resetting once: a second reset neither changes the
/// shape nor any cell, and every cell stays dead.
pub proof fn lemma_reset_idempotent(g: Grid, once: Grid, twice: Grid)
    requires
        same_dimensions(g, once),
        all_dead(once),
        same_dimensions(once, twice),
        all_dead(twice),
    ensures
        same_dimensions(g, twice),
        all_dead(twice),
        same_cells(once, twice),
{
}

/// Toggling the same in-bounds cell twice, with no mutation in between,
/// restores every cell of the grid.
pub proof fn lemma_toggle_involution(g0: Grid, g1: Grid, g2: Grid, x: int, y: int)
    requires
        toggled(g0, g1, x, y),
        toggled(g1, g2, x, y),
    ensures
        same_cells(g0, g2),
{
}

/// The tick is a pure function of the prior state: two grids with equal
/// cells have equal cells again after one tick each.
pub proof fn lemma_clock_deterministic(a: Grid, b: Grid, a2: Grid, b2: Grid)
    requires
        same_cells(a, b),
        clocked(a, a2),
        clocked(b, b2),
    ensures
        same_cells(a2, b2),
{
    assert forall|x: int, y: int| a.live(x, y) == b.live(x, y) by {
        if a.spec_in_bounds(x, y) {
            assert(a.spec_cell(x, y) == b.spec_cell(x, y));
        }
    }
    assert forall|x: int, y: int| a2.spec_in_bounds(x, y)
        implies a2.spec_cell(x, y) == b2.spec_cell(x, y) by {
        assert(a.spec_live_neighbours(x, y) == b.spec_live_neighbours(x, y));
        assert(a.spec_next_cell(x, y) == b.spec_next_cell(x, y));
    }
}

/// A 2x2 live block placed away from the edges is a still life: one tick
/// leaves every cell of the grid as it was.
pub proof fn lemma_block_still_life(g: Grid, g2: Grid, x: int, y: int)
    requires
        1 <= x,
        x + 2 < g.spec_width(),
        1 <= y,
        y + 2 < g.spec_height(),
        only_block_live(g, x, y),
        clocked(g, g2),
    ensures
        same_cells(g, g2),
{
    assert forall|a: int, b: int| g.spec_in_bounds(a, b)
        implies g2.spec_cell(a, b) == g.spec_cell(a, b) by {
        assert(g2.spec_cell(a, b) == g.spec_next_cell(a, b));
    }
}

/// An all-dead grid is a fixed point of the tick.
pub proof fn lemma_empty_fixed_point(g: Grid, g2: Grid)
    requires
        all_dead(g),
        clocked(g, g2),
    ensures
        all_dead(g2),
{
    assert forall|x: int, y: int| g2.spec_in_bounds(x, y) implies !g2.spec_cell(x, y) by {
        assert(g.spec_live_neighbours(x, y) == 0);
    }
}

/// A live count never exceeds the number of neighbour positions the grid
/// actually has around the cell.
pub proof fn lemma_neighbours_le_size(g: Grid, x: int, y: int)
    ensures
        g.spec_live_neighbours(x, y) <= g.spec_neighbourhood_size(x, y),
{
}

/// A corner cell has at most 3 neighbours.
pub proof fn lemma_corner_neighbours(g: Grid, x: int, y: int)
    requires
        g.spec_in_bounds(x, y),
        x == 0 || x == g.spec_width() - 1,
        y == 0 || y == g.spec_height() - 1,
    ensures
        g.spec_neighbourhood_size(x, y) <= 3,
        g.spec_live_neighbours(x, y) <= 3,
{
    lemma_neighbours_le_size(g, x, y);
}

/// A cell on the rim of the grid has at most 5 neighbours.
pub proof fn lemma_edge_neighbours(g: Grid, x: int, y: int)
    requires
        g.spec_in_bounds(x, y),
        x == 0 || x == g.spec_width() - 1 || y == 0 || y == g.spec_height() - 1,
    ensures
        g.spec_neighbourhood_size(x, y) <= 5,
        g.spec_live_neighbours(x, y) <= 5,
{
    lemma_neighbours_le_size(g, x, y);
}

/// An interior cell has exactly 8 neighbour positions, so at most 8 live
/// neighbours.
pub proof fn lemma_interior_neighbours(g: Grid, x: int, y: int)
    requires
        1 <= x < g.spec_width() - 1,
        1 <= y < g.spec_height() - 1,
    ensures
        g.spec_neighbourhood_size(x, y) == 8,
        g.spec_live_neighbours(x, y) <= 8,
{
    lemma_neighbours_le_size(g, x, y);
}

} // verus!
