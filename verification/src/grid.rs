use vstd::prelude::*;
use vstd::pervasive::VecAdditionalExecFns;

verus! {

/// A dense rectangular field of 8-bit cell states, addressed by `(x, y)`.
///
/// One container serves both visual channels: the boolean "alive/dead"
/// channel keeps its cells at `0` (dead) or `255` (alive), while the
/// brightness channel uses the whole `0..=255` range. Cells are stored
/// row-major; the dimensions are fixed for the lifetime of the grid.
pub struct Grid {
    pub width: usize,
    pub height: usize,
    pub cells: Vec<u8>,
}

/// Position of `(x, y)` in row-major storage.
pub open spec fn row_major(x: int, y: int, width: int) -> int {
    y * width + x
}

pub proof fn lemma_row_major_bound(x: int, y: int, w: int, h: int)
    by (nonlinear_arith)
    requires
        0 <= x < w,
        0 <= y < h,
    ensures
        0 <= row_major(x, y, w) < w * h,
{
}

pub proof fn lemma_row_major_injective(x1: int, y1: int, x2: int, y2: int, w: int)
    by (nonlinear_arith)
    requires
        0 <= x1 < w,
        0 <= x2 < w,
        0 <= y1,
        0 <= y2,
        !(x1 == x2 && y1 == y2),
    ensures
        row_major(x1, y1, w) != row_major(x2, y2, w),
{
}

impl Grid {
    /// The cell stored at column `x`, row `y`.
    pub open spec fn at(self, x: int, y: int) -> u8 {
        self.cells@[row_major(x, y, self.width as int)]
    }

    /// Positive dimensions, and exactly one stored value per coordinate.
    pub open spec fn wf(self) -> bool {
        &&& self.width >= 1
        &&& self.height >= 1
        &&& self.width * self.height <= usize::MAX
        &&& self.cells@.len() == self.width * self.height
    }

    /// `(x, y)` addresses a cell of this grid.
    pub open spec fn in_bounds(self, x: int, y: int) -> bool {
        0 <= x < self.width && 0 <= y < self.height
    }

    /// Both grids have the same width and height.
    pub open spec fn same_dims(self, other: Grid) -> bool {
        self.width == other.width && self.height == other.height
    }

    /// A fresh grid with every cell set to `value`.
    pub fn new(width: usize, height: usize, value: u8) -> (g: Grid)
        requires
            1 <= width,
            1 <= height,
            width * height <= usize::MAX,
        ensures
            g.wf(),
            g.width == width,
            g.height == height,
            forall|x: int, y: int| g.in_bounds(x, y) ==> g.at(x, y) == value,
    {
        let total: usize = width * height;
        let mut cells: Vec<u8> = Vec::new();
        let mut i: usize = 0;
        while i < total
            invariant
                i <= total,
                cells@.len() == i,
                forall|j: int| 0 <= j < i ==> cells@[j] == value,
            decreases total - i,
        {
            cells.push(value);
            i = i + 1;
        }
        let g = Grid { width, height, cells };
        proof {
            assert forall|x: int, y: int| g.in_bounds(x, y) implies g.at(x, y) == value by {
                lemma_row_major_bound(x, y, width as int, height as int);
            }
        }
        g
    }

    pub fn width(&self) -> (w: usize)
        ensures
            w == self.width,
    {
        self.width
    }

    pub fn height(&self) -> (h: usize)
        ensures
            h == self.height,
    {
        self.height
    }

    /// Read the cell at `(x, y)`; out-of-range coordinates are rejected.
    pub fn get(&self, x: usize, y: usize) -> (v: u8)
        requires
            self.wf(),
            x < self.width,
            y < self.height,
        ensures
            v == self.at(x as int, y as int),
    {
        proof {
            lemma_row_major_bound(x as int, y as int, self.width as int, self.height as int);
        }
        let i: usize = y * self.width + x;
        self.cells[i]
    }

    /// Write `value` at `(x, y)`, leaving every other cell unchanged.
    pub fn set(&mut self, x: usize, y: usize, value: u8)
        requires
            old(self).wf(),
            x < old(self).width,
            y < old(self).height,
        ensures
            final(self).wf(),
            final(self).same_dims(*old(self)),
            final(self).at(x as int, y as int) == value,
            forall|xx: int, yy: int|
                old(self).in_bounds(xx, yy) && !(xx == x && yy == y)
                    ==> final(self).at(xx, yy) == old(self).at(xx, yy),
    {
        proof {
            lemma_row_major_bound(x as int, y as int, self.width as int, self.height as int);
        }
        let i: usize = y * self.width + x;
        self.cells.set(i, value);
        proof {
            assert forall|xx: int, yy: int|
                old(self).in_bounds(xx, yy) && !(xx == x && yy == y)
                    implies final(self).at(xx, yy) == old(self).at(xx, yy) by {
                lemma_row_major_bound(xx, yy, old(self).width as int, old(self).height as int);
                lemma_row_major_injective(xx, yy, x as int, y as int, old(self).width as int);
            }
        }
    }
}

} // verus!
