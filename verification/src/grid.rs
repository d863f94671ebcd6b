//! The Game of Life grid: a fixed-shape rectangular array of cells, each
//! alive or dead, with bounded (clamping, non-toroidal) neighborhoods.
//!
//! Cells are stored in a single flat buffer of length `width * height`,
//! indexed as `y * width + x`.

use vstd::prelude::*;

verus! {

/// Error returned when a coordinate lies outside `[0, width) x [0, height)`.
#[derive(Debug)]
pub struct OutOfTableBoundsError {
    point: (usize, usize),
}

impl OutOfTableBoundsError {
    /// The offending coordinate pair.
    pub closed spec fn spec_point(self) -> (usize, usize) {
        self.point
    }

    /// The offending coordinate pair.
    pub fn point(&self) -> (r: (usize, usize))
        ensures
            r == self.spec_point(),
    {
        self.point
    }
}

/// Error returned when a grid is requested with a zero width or height.
#[derive(Debug)]
pub struct InvalidDimensionError;

/// Represents the Game of Life grid.
pub struct Grid {
    /// Flat cell buffer of length `width * height`, indexed as `y * width + x`.
    matrix: Vec<bool>,
    width: usize,
    height: usize,
}

impl Grid {
    /// Grid width, as a mathematical integer.
    pub closed spec fn spec_width(self) -> int {
        self.width as int
    }

    /// Grid height, as a mathematical integer.
    pub closed spec fn spec_height(self) -> int {
        self.height as int
    }

    /// Well-formedness: both dimensions are positive and the buffer has
    /// exactly one slot per cell.
    pub closed spec fn wf(self) -> bool {
        &&& self.width >= 1
        &&& self.height >= 1
        &&& self.matrix@.len() == self.spec_width() * self.spec_height()
    }

    /// The stored state of the cell at `(x, y)`; meaningful only in bounds.
    pub closed spec fn spec_cell(self, x: int, y: int) -> bool {
        self.matrix@[y * self.spec_width() + x]
    }

    /// Whether `(x, y)` addresses a cell of this grid.
    pub open spec fn spec_in_bounds(self, x: int, y: int) -> bool {
        0 <= x < self.spec_width() && 0 <= y < self.spec_height()
    }

    /// `spec_in_bounds` on a machine-word coordinate pair.
    pub open spec fn spec_point_in_bounds(self, p: (usize, usize)) -> bool {
        self.spec_in_bounds(p.0 as int, p.1 as int)
    }

    /// Bounded clamping: a position outside the grid is permanently dead.
    pub open spec fn live(self, x: int, y: int) -> bool {
        self.spec_in_bounds(x, y) && self.spec_cell(x, y)
    }

    /// 1 if the cell at `(a, b)` counts as a live neighbour of `(x, y)`,
    /// else 0: the center itself and everything outside the grid count 0.
    pub open spec fn nb_at(self, x: int, y: int, a: int, b: int) -> int {
        if (a != x || b != y) && self.live(a, b) {
            1
        } else {
            0
        }
    }

    /// Live neighbours of `(x, y)` in the column `a` of its 3x3 window.
    pub open spec fn nb_col(self, x: int, y: int, a: int) -> int {
        self.nb_at(x, y, a, y - 1) + self.nb_at(x, y, a, y) + self.nb_at(x, y, a, y + 1)
    }

    /// Number of live cells in the Moore neighborhood of `(x, y)`: the up to
    /// eight in-bounds cells of the 3x3 window, the center itself excluded.
    pub open spec fn spec_live_neighbours(self, x: int, y: int) -> int {
        self.nb_at(x, y, x - 1, y - 1) + self.nb_at(x, y, x, y - 1) + self.nb_at(x, y, x + 1, y - 1)
            + self.nb_at(x, y, x - 1, y) + self.nb_at(x, y, x + 1, y)
            + self.nb_at(x, y, x - 1, y + 1) + self.nb_at(x, y, x, y + 1)
            + self.nb_at(x, y, x + 1, y + 1)
    }

    /// How many positions of the 3x3 window around `(x, y)` are cells of the
    /// grid, the center itself excluded: 8 in the interior, fewer at the rim.
    pub open spec fn spec_neighbourhood_size(self, x: int, y: int) -> int {
        self.ib_at(x - 1, y - 1) + self.ib_at(x, y - 1) + self.ib_at(x + 1, y - 1)
            + self.ib_at(x - 1, y) + self.ib_at(x + 1, y)
            + self.ib_at(x - 1, y + 1) + self.ib_at(x, y + 1) + self.ib_at(x + 1, y + 1)
    }

    /// 1 if `(a, b)` is a cell of the grid, else 0.
    pub open spec fn ib_at(self, a: int, b: int) -> int {
        if self.spec_in_bounds(a, b) {
            1
        } else {
            0
        }
    }

    /// The B3/S23 rule applied to one cell: alive in the next generation
    /// exactly when it has three live neighbours, or two and is alive now.
    pub open spec fn spec_next_cell(self, x: int, y: int) -> bool {
        self.spec_live_neighbours(x, y) == 3
            || (self.spec_live_neighbours(x, y) == 2 && self.spec_cell(x, y))
    }

    /// Creates a grid with all cells dead.
    ///
    /// Zero is rejected for either dimension: a degenerate grid has no cell
    /// to address. The product bound is a machine limit on the buffer size.
    pub fn new(width: usize, height: usize) -> (r: Result<Self, InvalidDimensionError>)
        requires
            width * height <= usize::MAX,
        ensures
            r is Ok <==> (width >= 1 && height >= 1),
            r matches Ok(g) ==> {
                &&& g.wf()
                &&& g.spec_width() == width
                &&& g.spec_height() == height
                &&& all_dead(g)
            },
    {
        if width == 0 || height == 0 {
            return Err(InvalidDimensionError);
        }
        let n = width * height;
        let mut cells: Vec<bool> = Vec::new();
        let mut i: usize = 0;
        while i < n
            invariant
                i <= n,
                cells@.len() == i,
                forall|k: int| 0 <= k < i ==> !cells@[k],
            decreases n - i,
        {
            cells.push(false);
            i = i + 1;
        }
        let g = Grid { matrix: cells, width, height };
        proof {
            assert forall|x: int, y: int| g.spec_in_bounds(x, y) implies !g.spec_cell(x, y) by {
                lemma_flat_index_bounds(x, y, width as int, height as int);
            }
        }
        Ok(g)
    }

    /// A getter of the dimensions of the table.
    pub fn dimensions(&self) -> (r: (usize, usize))
        ensures
            r.0 == self.spec_width(),
            r.1 == self.spec_height(),
    {
        (self.width, self.height)
    }

    fn point_in_bounds(&self, point: (usize, usize)) -> (r: bool)
        ensures
            r == self.spec_point_in_bounds(point),
    {
        point.0 < self.width && point.1 < self.height
    }

    /// Reads one cell; the coordinate must be in bounds.
    fn get_cell(&self, x: usize, y: usize) -> (r: bool)
        requires
            self.wf(),
            self.spec_in_bounds(x as int, y as int),
        ensures
            r == self.spec_cell(x as int, y as int),
    {
        proof {
            vstd::std_specs::vec::axiom_spec_len(&self.matrix);
            lemma_flat_index_bounds(x as int, y as int, self.spec_width(), self.spec_height());
        }
        self.matrix[y * self.width + x]
    }

    /// Writes one cell; the coordinate must be in bounds. Every other cell
    /// and both dimensions are untouched.
    fn set_cell(&mut self, x: usize, y: usize, value: bool)
        requires
            old(self).wf(),
            old(self).spec_in_bounds(x as int, y as int),
        ensures
            final(self).wf(),
            final(self).spec_width() == old(self).spec_width(),
            final(self).spec_height() == old(self).spec_height(),
            final(self).spec_cell(x as int, y as int) == value,
            forall|a: int, b: int|
                old(self).spec_in_bounds(a, b) && (a, b) != (x as int, y as int)
                    ==> final(self).spec_cell(a, b) == old(self).spec_cell(a, b),
    {
        proof {
            vstd::std_specs::vec::axiom_spec_len(&self.matrix);
            lemma_flat_index_bounds(x as int, y as int, self.spec_width(), self.spec_height());
        }
        let idx = y * self.width + x;
        self.matrix.set(idx, value);
        proof {
            assert forall|a: int, b: int|
                old(self).spec_in_bounds(a, b) && (a, b) != (x as int, y as int)
                    implies final(self).spec_cell(a, b) == old(self).spec_cell(a, b) by {
                lemma_flat_index_bounds(a, b, self.spec_width(), self.spec_height());
                lemma_flat_index_injective(
                    a, b, x as int, y as int, self.spec_width(), self.spec_height());
            }
        }
    }

    /// Index of the first out-of-bounds point, if any; points before it are
    /// all in bounds.
    fn first_out_of_bounds(&self, points: &Vec<(usize, usize)>) -> (r: Option<usize>)
        ensures
            r is None <==> (forall|k: int|
                0 <= k < points@.len() ==> self.spec_point_in_bounds(points@[k])),
            r matches Some(i) ==> {
                &&& 0 <= (i as int) < points@.len()
                &&& !self.spec_point_in_bounds(points@[i as int])
                &&& forall|j: int| 0 <= j < i ==> self.spec_point_in_bounds(points@[j])
            },
    {
        let mut i: usize = 0;
        while i < points.len()
            invariant
                i <= points@.len(),
                forall|j: int| 0 <= j < i ==> self.spec_point_in_bounds(points@[j]),
            decreases points@.len() - i,
        {
            if !self.point_in_bounds(points[i]) {
                return Some(i);
            }
            i = i + 1;
        }
        None
    }

    /// When used, make alive the cells with the coordinates of the points
    /// received. All-or-nothing: if any point is out of bounds, the first
    /// such point is reported and the grid is left exactly as it was.
    /// Duplicate points are idempotent.
    pub fn seed(&mut self, points: Vec<(usize, usize)>) -> (r: Result<(), OutOfTableBoundsError>)
        requires
            old(self).wf(),
        ensures
            final(self).wf(),
            same_dimensions(*old(self), *final(self)),
            r is Ok <==> (forall|k: int|
                0 <= k < points@.len() ==> old(self).spec_point_in_bounds(points@[k])),
            r is Ok ==> forall|x: int, y: int|
                old(self).spec_in_bounds(x, y) ==> final(self).spec_cell(x, y) == (
                    old(self).spec_cell(x, y) || points@.contains((x as usize, y as usize))),
            r matches Err(e) ==> {
                &&& same_cells(*old(self), *final(self))
                &&& exists|i: int| {
                    &&& 0 <= i < points@.len()
                    &&& e.spec_point() == points@[i]
                    &&& !old(self).spec_point_in_bounds(points@[i])
                    &&& forall|j: int| 0 <= j < i ==> old(self).spec_point_in_bounds(points@[j])
                }
            },
    {
        if let Some(i) = self.first_out_of_bounds(&points) {
            let point = points[i];
            return Err(OutOfTableBoundsError { point });
        }
        let mut i: usize = 0;
        while i < points.len()
            invariant
                self.wf(),
                same_dimensions(*old(self), *self),
                i <= points@.len(),
                forall|k: int|
                    0 <= k < points@.len() ==> old(self).spec_point_in_bounds(points@[k]),
                forall|x: int, y: int|
                    old(self).spec_in_bounds(x, y) ==> self.spec_cell(x, y) == (
                        old(self).spec_cell(x, y)
                        || exists|j: int| 0 <= j < i && points@[j] == (x as usize, y as usize)),
            decreases points@.len() - i,
        {
            let point = points[i];
            self.set_cell(point.0, point.1, true);
            proof {
                assert forall|x: int, y: int| old(self).spec_in_bounds(x, y)
                    implies self.spec_cell(x, y) == (
                        old(self).spec_cell(x, y)
                        || exists|j: int|
                            0 <= j < i + 1 && points@[j] == (x as usize, y as usize)) by {
                    if x == point.0 as int && y == point.1 as int {
                        assert(points@[i as int] == (x as usize, y as usize));
                    }
                }
            }
            i = i + 1;
        }
        Ok(())
    }

    /// Used to create the seed manually (on the interactive version): an
    /// in-bounds point is inverted, an out-of-bounds click is a silent no-op.
    pub fn change_state_click(&mut self, x: usize, y: usize)
        requires
            old(self).wf(),
        ensures
            final(self).wf(),
            old(self).spec_in_bounds(x as int, y as int)
                ==> toggled(*old(self), *final(self), x as int, y as int),
            !old(self).spec_in_bounds(x as int, y as int)
                ==> same_cells(*old(self), *final(self)),
    {
        if x >= self.width || y >= self.height {
            return;
        }
        let current = self.get_cell(x, y);
        self.set_cell(x, y, !current);
    }

    /// Sets every cell to dead; the dimensions are unchanged.
    pub fn reset(&mut self)
        requires
            old(self).wf(),
        ensures
            final(self).wf(),
            same_dimensions(*old(self), *final(self)),
            all_dead(*final(self)),
    {
        let n = self.matrix.len();
        let mut cells: Vec<bool> = Vec::new();
        let mut i: usize = 0;
        while i < n
            invariant
                i <= n,
                cells@.len() == i,
                forall|k: int| 0 <= k < i ==> !cells@[k],
            decreases n - i,
        {
            cells.push(false);
            i = i + 1;
        }
        self.matrix = cells;
        proof {
            assert forall|x: int, y: int| self.spec_in_bounds(x, y)
                implies !self.spec_cell(x, y) by {
                lemma_flat_index_bounds(x, y, self.spec_width(), self.spec_height());
            }
        }
    }

    /// The in-bounds slice of `[number - 1, number + 1]`, as a half-open
    /// range `[r.0, r.1)`: clamped below at 0 and above at `limit`.
    fn limited_range_for_number(number: usize, limit: usize) -> (r: (usize, usize))
        requires
            number < limit,
        ensures
            r.0 as int == if number == 0 { 0int } else { number as int - 1 },
            r.1 as int == if number as int + 2 <= limit as int {
                number as int + 2
            } else {
                limit as int
            },
    {
        let lo = if number == 0 { 0 } else { number - 1 };
        let hi = if limit - number <= 2 { limit } else { number + 2 };
        (lo, hi)
    }

    /// Counts how many live square neighbours the cell at `(x, y)` has.
    fn count_neighbours(&self, x: usize, y: usize) -> (count: u8)
        requires
            self.wf(),
            self.spec_in_bounds(x as int, y as int),
        ensures
            count as int == self.spec_live_neighbours(x as int, y as int),
    {
        let ghost gx = x as int;
        let ghost gy = y as int;
        let mut count: u8 = 0;

        let (lo_x, hi_x) = Self::limited_range_for_number(x, self.width);
        let (lo_y, hi_y) = Self::limited_range_for_number(y, self.height);

        let mut pos_x = lo_x;
        while pos_x < hi_x
            invariant
                self.wf(),
                self.spec_in_bounds(gx, gy),
                gx == x as int && gy == y as int,
                lo_x as int == if gx == 0 { 0int } else { gx - 1 },
                hi_x as int == if gx + 2 <= self.spec_width() { gx + 2 } else { self.spec_width() },
                lo_y as int == if gy == 0 { 0int } else { gy - 1 },
                hi_y as int == if gy + 2 <= self.spec_height() {
                    gy + 2
                } else {
                    self.spec_height()
                },
                lo_x <= pos_x <= hi_x,
                count as int == (
                    if lo_x as int <= gx - 1 < pos_x as int { self.nb_col(gx, gy, gx - 1) } else { 0int })
                    + (if lo_x as int <= gx < pos_x as int { self.nb_col(gx, gy, gx) } else { 0int })
                    + (if lo_x as int <= gx + 1 < pos_x as int { self.nb_col(gx, gy, gx + 1) } else { 0int }),
            decreases hi_x - pos_x,
        {
            let mut pos_y = lo_y;
            let ghost count_before = count as int;
            while pos_y < hi_y
                invariant
                    self.wf(),
                    self.spec_in_bounds(gx, gy),
                    gx == x as int && gy == y as int,
                    lo_y as int == if gy == 0 { 0int } else { gy - 1 },
                    hi_y as int == if gy + 2 <= self.spec_height() {
                        gy + 2
                    } else {
                        self.spec_height()
                    },
                    lo_x as int <= pos_x as int && (pos_x as int) < hi_x as int,
                    hi_x as int <= self.spec_width(),
                    gx - 1 <= lo_x as int,
                    lo_y <= pos_y <= hi_y,
                    count as int == count_before
                        + (if lo_y as int <= gy - 1 < pos_y as int {
                            self.nb_at(gx, gy, pos_x as int, gy - 1)
                        } else { 0int })
                        + (if lo_y as int <= gy < pos_y as int {
                            self.nb_at(gx, gy, pos_x as int, gy)
                        } else { 0int })
                        + (if lo_y as int <= gy + 1 < pos_y as int {
                            self.nb_at(gx, gy, pos_x as int, gy + 1)
                        } else { 0int }),
                    count_before == (
                        if lo_x as int <= gx - 1 < pos_x as int { self.nb_col(gx, gy, gx - 1) } else { 0int })
                        + (if lo_x as int <= gx < pos_x as int { self.nb_col(gx, gy, gx) } else { 0int })
                        + (if lo_x as int <= gx + 1 < pos_x as int { self.nb_col(gx, gy, gx + 1) } else { 0int }),
                decreases hi_y - pos_y,
            {
                if !(pos_x == x && pos_y == y) {
                    if self.get_cell(pos_x, pos_y) {
                        count = count + 1;
                    }
                }
                pos_y = pos_y + 1;
            }
            pos_x = pos_x + 1;
        }
        count
    }

    /// Executes the logic of the generation change: every cell is rewritten
    /// by the B3/S23 rule. The successor is computed into a fresh buffer, so
    /// every neighbour read observes the pre-tick state.
    pub fn clock(&mut self)
        requires
            old(self).wf(),
        ensures
            final(self).wf(),
            clocked(*old(self), *final(self)),
    {
        let w = self.width;
        let h = self.height;
        let mut next: Vec<bool> = Vec::new();
        let mut y: usize = 0;
        while y < h
            invariant
                *self == *old(self),
                self.wf(),
                w == self.width,
                h == self.height,
                y <= h,
                next@.len() == y * w,
                forall|a: int, b: int|
                    0 <= a < w && 0 <= b < y ==> next@[b * (w as int) + a]
                        == old(self).spec_next_cell(a, b),
            decreases h - y,
        {
            let mut x: usize = 0;
            while x < w
                invariant
                    *self == *old(self),
                    self.wf(),
                    w == self.width,
                    h == self.height,
                    y < h,
                    x <= w,
                    next@.len() == y * w + x,
                    forall|a: int, b: int|
                        (0 <= a < w && 0 <= b < y) || (b == y && 0 <= a < x)
                            ==> next@[b * (w as int) + a] == old(self).spec_next_cell(a, b),
                decreases w - x,
            {
                let neighbours_amount = self.count_neighbours(x, y);
                let field = self.get_cell(x, y);
                next.push(neighbours_amount == 3 || neighbours_amount == 2 && field);
                proof {
                    assert forall|a: int, b: int|
                        (0 <= a < w && 0 <= b < y) || (b == y && 0 <= a < x + 1)
                            implies next@[b * (w as int) + a]
                                == old(self).spec_next_cell(a, b) by {
                        if (a, b) != (x as int, y as int) {
                            lemma_flat_index_lt(a, b, x as int, y as int, w as int);
                        }
                    }
                }
                x = x + 1;
            }
            proof {
                assert((y + 1) * (w as int) == y * (w as int) + w) by (nonlinear_arith);
            }
            y = y + 1;
        }
        proof {
            assert((h as int) * (w as int) == (w as int) * (h as int)) by (nonlinear_arith);
        }
        self.matrix = next;
        proof {
            assert forall|a: int, b: int| old(self).spec_in_bounds(a, b)
                implies self.spec_cell(a, b) == old(self).spec_next_cell(a, b) by {
                lemma_flat_index_bounds(a, b, w as int, h as int);
            }
        }
    }

    /// Like a getter of a certain position of the grid; out-of-bounds
    /// queries fail explicitly with the offending point.
    pub fn at(&self, x: usize, y: usize) -> (r: Result<bool, OutOfTableBoundsError>)
        requires
            self.wf(),
        ensures
            r is Ok <==> self.spec_in_bounds(x as int, y as int),
            r matches Ok(alive) ==> alive == self.spec_cell(x as int, y as int),
            r matches Err(e) ==> e.spec_point() == (x, y),
    {
        if !self.point_in_bounds((x, y)) {
            Err(OutOfTableBoundsError { point: (x, y) })
        } else {
            Ok(self.get_cell(x, y))
        }
    }
}

/// Every cell of the grid is dead.
pub open spec fn all_dead(g: Grid) -> bool {
    forall|x: int, y: int| g.spec_in_bounds(x, y) ==> !g.spec_cell(x, y)
}

/// Both grids have the same width and the same height.
pub open spec fn same_dimensions(a: Grid, b: Grid) -> bool {
    a.spec_width() == b.spec_width() && a.spec_height() == b.spec_height()
}

/// Both grids have the same shape and pointwise equal cells.
pub open spec fn same_cells(a: Grid, b: Grid) -> bool {
    &&& same_dimensions(a, b)
    &&& forall|x: int, y: int| a.spec_in_bounds(x, y) ==> a.spec_cell(x, y) == b.spec_cell(x, y)
}

/// `post` is `pre` with exactly the in-bounds cell `(x, y)` inverted.
pub open spec fn toggled(pre: Grid, post: Grid, x: int, y: int) -> bool {
    &&& same_dimensions(pre, post)
    &&& pre.spec_in_bounds(x, y)
    &&& forall|a: int, b: int|
        pre.spec_in_bounds(a, b) ==> post.spec_cell(a, b) == (
            if a == x && b == y {
                !pre.spec_cell(a, b)
            } else {
                pre.spec_cell(a, b)
            })
}

/// `post` is the generation after `pre`: the same shape, every cell
/// rewritten by the B3/S23 rule read from `pre`.
pub open spec fn clocked(pre: Grid, post: Grid) -> bool {
    &&& same_dimensions(pre, post)
    &&& forall|x: int, y: int|
        pre.spec_in_bounds(x, y) ==> post.spec_cell(x, y) == pre.spec_next_cell(x, y)
}

/// An in-bounds coordinate maps to a buffer index below `w * h`.
proof fn lemma_flat_index_bounds(x: int, y: int, w: int, h: int)
    requires
        0 <= x < w,
        0 <= y < h,
    ensures
        0 <= y * w + x < w * h,
{
    assert(0 <= y * w + x < w * h) by (nonlinear_arith)
        requires
            0 <= x < w,
            0 <= y < h,
    ;
}

/// Row-major order: a coordinate in an earlier row, or earlier in the same
/// row, maps to a smaller buffer index.
proof fn lemma_flat_index_lt(a: int, b: int, x: int, y: int, w: int)
    requires
        0 <= a < w,
        0 <= b,
        0 <= x,
        b < y || (b == y && a < x),
    ensures
        b * w + a < y * w + x,
{
    assert(b * w + a < y * w + x) by (nonlinear_arith)
        requires
            0 <= a < w,
            0 <= b,
            0 <= x,
            b < y || (b == y && a < x),
    ;
}

/// Distinct in-bounds coordinates map to distinct buffer indices.
proof fn lemma_flat_index_injective(x1: int, y1: int, x2: int, y2: int, w: int, h: int)
    requires
        0 <= x1 < w,
        0 <= y1 < h,
        0 <= x2 < w,
        0 <= y2 < h,
        (x1, y1) != (x2, y2),
    ensures
        y1 * w + x1 != y2 * w + x2,
{
    assert(y1 * w + x1 != y2 * w + x2) by (nonlinear_arith)
        requires
            0 <= x1 < w,
            0 <= y1 < h,
            0 <= x2 < w,
            0 <= y2 < h,
            (x1, y1) != (x2, y2),
    ;
}

} // verus!
