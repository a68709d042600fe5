//! The stepping engine: one automaton instance and the synchronous
//! next-generation computation, with its neighbor-counting and edge policy.

use vstd::prelude::*;
use crate::grid::Grid;
use crate::rules::{Kernel, RuleKind, Rules, ALIVE, DEAD};

verus! {

/// One automaton: a grid paired with the rules that evolve it.
pub struct Game {
    pub field: Grid,
    pub rules: Rules,
}

/// What kernel cell `i` (row-major over the 3-by-3 kernel, so `kx = i % 3`,
/// `ky = i / 3`) contributes to the neighbor sum at `(x, y)`: nothing for the
/// center cell and nothing for offsets that fall outside the grid — border
/// cells simply see a smaller neighborhood.
pub open spec fn cell_term(g: Grid, r: Rules, x: int, y: int, i: int) -> int {
    let kx = i % 3;
    let ky = i / 3;
    let nx = x + kx - 1;
    let ny = y + ky - 1;
    if i == 4 {
        0
    } else if !g.in_bounds(nx, ny) {
        0
    } else {
        r.kind.spec_count_neighbor(g.at(nx, ny), r.kernel.spec_weight(kx, ky))
    }
}

/// The sum of the first `n` kernel-cell terms at `(x, y)`.
pub open spec fn partial_neighbor_sum(g: Grid, r: Rules, x: int, y: int, n: nat) -> int
    decreases n,
{
    if n == 0 {
        0
    } else {
        partial_neighbor_sum(g, r, x, y, (n - 1) as nat) + cell_term(g, r, x, y, n - 1)
    }
}

/// The neighbor sum at `(x, y)`: all eight non-center offsets, off-grid ones
/// contributing nothing.
pub open spec fn neighbor_sum(g: Grid, r: Rules, x: int, y: int) -> int {
    partial_neighbor_sum(g, r, x, y, 9)
}

/// The cell the next generation holds at `(x, y)`.
pub open spec fn spec_cell_next(g: Grid, r: Rules, x: int, y: int) -> u8 {
    r.kind.spec_next_state(g.at(x, y), neighbor_sum(g, r, x, y))
}

/// `next` is exactly the generation that follows `g` under `r`: the same
/// dimensions, and every cell computed from the read-only view of `g` —
/// the classic synchronous update.
pub open spec fn is_step_of(next: Grid, g: Grid, r: Rules) -> bool {
    &&& next.wf()
    &&& next.same_dims(g)
    &&& forall|x: int, y: int|
        g.in_bounds(x, y) ==> next.at(x, y) == spec_cell_next(g, r, x, y)
}

/// On the boolean channel every cell is one of the two sentinel bytes.
pub open spec fn valid_channel_cells(g: Grid, r: Rules) -> bool {
    r.kind.is_bool_kind() ==> forall|x: int, y: int|
        g.in_bounds(x, y) ==> (g.at(x, y) == DEAD || g.at(x, y) == ALIVE)
}

/// Move a coordinate by the kernel offset `k - 1`, reporting whether the
/// result is still on the grid (`limit` exclusive).
fn offset_coord(base: usize, k: usize, limit: usize) -> (r: (bool, usize))
    requires
        k < 3,
        base < limit,
    ensures
        r.0 == (0 <= base + k - 1 < limit),
        r.0 ==> r.1 == base + k - 1,
{
    if k == 0 {
        if base >= 1 {
            (true, base - 1)
        } else {
            (false, 0)
        }
    } else if k == 1 {
        (true, base)
    } else {
        if base + 1 < limit {
            (true, base + 1)
        } else {
            (false, 0)
        }
    }
}

impl Game {
    pub open spec fn wf(self) -> bool {
        self.field.wf() && self.rules.wf()
    }

    /// The neighbor sum of cell `(x, y)`: every kernel offset except the
    /// center, skipping offsets that fall outside the grid.
    pub fn count_neighbors(&self, x: usize, y: usize) -> (count: i32)
        requires
            self.wf(),
            x < self.field.width,
            y < self.field.height,
        ensures
            count == neighbor_sum(self.field, self.rules, x as int, y as int),
            0 <= count <= 2295,
    {
        let mut count: i32 = 0;
        let mut ky: usize = 0;
        while ky < 3
            invariant
                self.wf(),
                x < self.field.width,
                y < self.field.height,
                ky <= 3,
                count == partial_neighbor_sum(
                    self.field,
                    self.rules,
                    x as int,
                    y as int,
                    (3 * ky) as nat,
                ),
                0 <= count <= 255 * (3 * ky + 0),
            decreases 3 - ky,
        {
            let mut kx: usize = 0;
            while kx < 3
                invariant
                    self.wf(),
                    x < self.field.width,
                    y < self.field.height,
                    ky < 3,
                    kx <= 3,
                    count == partial_neighbor_sum(
                        self.field,
                        self.rules,
                        x as int,
                        y as int,
                        (3 * ky + kx) as nat,
                    ),
                    0 <= count <= 255 * (3 * ky + kx),
                decreases 3 - kx,
            {
                let ghost i = 3 * ky + kx;
                let (okx, nx) = offset_coord(x, kx, self.field.width);
                let (oky, ny) = offset_coord(y, ky, self.field.height);
                if !(kx == 1 && ky == 1) && okx && oky {
                    let state = self.field.get(nx, ny);
                    let w = self.rules.kernel.weight(kx, ky);
                    let c = self.rules.count_neighbor(state, w);
                    count = count + c;
                    proof {
                        assert(i % 3 == kx && i / 3 == ky);
                        assert(cell_term(self.field, self.rules, x as int, y as int, i as int)
                            == c);
                    }
                } else {
                    proof {
                        assert(i % 3 == kx && i / 3 == ky);
                        assert(cell_term(self.field, self.rules, x as int, y as int, i as int)
                            == 0);
                    }
                }
                kx = kx + 1;
            }
            ky = ky + 1;
        }
        count
    }

    /// Compute the next generation from a read-only view of the current one.
    pub fn field_iteration(&self) -> (next: Grid)
        requires
            self.wf(),
        ensures
            is_step_of(next, self.field, self.rules),
    {
        let width = self.field.width;
        let height = self.field.height;
        let mut next = Grid::new(width, height, 0);
        let mut x: usize = 0;
        while x < width
            invariant
                self.wf(),
                width == self.field.width,
                height == self.field.height,
                next.wf(),
                next.width == width,
                next.height == height,
                x <= width,
                forall|xx: int, yy: int|
                    0 <= xx < x && 0 <= yy < height ==> next.at(xx, yy) == spec_cell_next(
                        self.field,
                        self.rules,
                        xx,
                        yy,
                    ),
            decreases width - x,
        {
            let mut y: usize = 0;
            while y < height
                invariant
                    self.wf(),
                    width == self.field.width,
                    height == self.field.height,
                    next.wf(),
                    next.width == width,
                    next.height == height,
                    x < width,
                    y <= height,
                    forall|xx: int, yy: int|
                        0 <= xx < x && 0 <= yy < height ==> next.at(xx, yy) == spec_cell_next(
                            self.field,
                            self.rules,
                            xx,
                            yy,
                        ),
                    forall|yy: int|
                        0 <= yy < y ==> next.at(x as int, yy) == spec_cell_next(
                            self.field,
                            self.rules,
                            x as int,
                            yy,
                        ),
                decreases height - y,
            {
                let old_state = self.field.get(x, y);
                let neighbors = self.count_neighbors(x, y);
                let new_state = self.rules.next_state(old_state, neighbors);
                next.set(x, y, new_state);
                y = y + 1;
            }
            x = x + 1;
        }
        next
    }

    /// Replace the grid by its next generation; the rules are untouched.
    pub fn step(&mut self)
        requires
            old(self).wf(),
        ensures
            final(self).wf(),
            final(self).rules == old(self).rules,
            is_step_of(final(self).field, old(self).field, old(self).rules),
    {
        let next = self.field_iteration();
        self.field = next;
    }
}

/// Stepping never changes a grid's dimensions, and on the boolean channel it
/// writes nothing but the two sentinel bytes.
pub proof fn lemma_step_preserves_shape(next: Grid, g: Grid, r: Rules)
    requires
        is_step_of(next, g, r),
    ensures
        next.same_dims(g),
        next.wf(),
        valid_channel_cells(next, r),
{
    if r.kind.is_bool_kind() {
        assert forall|x: int, y: int| next.in_bounds(x, y) implies (next.at(x, y) == DEAD
            || next.at(x, y) == ALIVE) by {
            assert(g.in_bounds(x, y));
            r.kind.lemma_bool_kind_two_valued(g.at(x, y), neighbor_sum(g, r, x, y));
        }
    }
}

/// Over any run of generations, each one a step of the one before, every
/// generation keeps the dimensions of the first, stays well-formed, and on
/// the boolean channel every cell of every generation is a sentinel byte.
pub proof fn lemma_repeated_steps_preserve_shape(gs: Seq<Grid>, r: Rules)
    requires
        gs.len() >= 1,
        forall|i: int| 0 <= i < gs.len() - 1 ==> is_step_of(#[trigger] gs[i + 1], gs[i], r),
    ensures
        forall|i: int| 0 <= i < gs.len() ==> (#[trigger] gs[i]).same_dims(gs[0]),
        forall|i: int| 1 <= i < gs.len() ==> (#[trigger] gs[i]).wf() && valid_channel_cells(gs[i], r),
    decreases gs.len(),
{
    if gs.len() > 1 {
        let prefix = gs.drop_last();
        assert forall|i: int| 0 <= i < prefix.len() - 1 implies is_step_of(
            #[trigger] prefix[i + 1],
            prefix[i],
            r,
        ) by {
            assert(prefix[i + 1] == gs[i + 1]);
            assert(prefix[i] == gs[i]);
        }
        lemma_repeated_steps_preserve_shape(prefix, r);
        let n = gs.len() - 1;
        assert(is_step_of(gs[n - 1 + 1], gs[n - 1], r));
        lemma_step_preserves_shape(gs[n], gs[n - 1], r);
        assert forall|i: int| 0 <= i < gs.len() implies (#[trigger] gs[i]).same_dims(gs[0]) by {
            if i < n {
                assert(prefix[i].same_dims(prefix[0]));
            } else {
                assert(prefix[n - 1].same_dims(prefix[0]));
            }
        }
        assert forall|i: int| 1 <= i < gs.len() implies (#[trigger] gs[i]).wf()
            && valid_channel_cells(gs[i], r) by {
            if i < n {
                assert(prefix[i].wf() && valid_channel_cells(prefix[i], r));
            }
        }
    }
}

/// Stepping is deterministic: two grids that are each the step of the same
/// grid under the same rules are equal, cell for cell.
pub proof fn lemma_step_deterministic(g: Grid, r: Rules, a: Grid, b: Grid)
    requires
        is_step_of(a, g, r),
        is_step_of(b, g, r),
    ensures
        a.cells@ == b.cells@,
        a.same_dims(b),
{
    let w = g.width as int;
    let h = g.height as int;
    assert forall|i: int| 0 <= i < a.cells@.len() implies a.cells@[i] == b.cells@[i] by {
        let x = i % w;
        let y = i / w;
        assert(0 <= x < w && 0 <= y < h && y * w + x == i) by (nonlinear_arith)
            requires
                w >= 1,
                h >= 1,
                0 <= i < w * h,
                x == i % w,
                y == i / w,
        ;
        assert(a.at(x, y) == spec_cell_next(g, r, x, y));
        assert(b.at(x, y) == spec_cell_next(g, r, x, y));
    }
    assert(a.cells@ =~= b.cells@);
}

/// A corner cell under a Moore kernel sees at most three contributing
/// offsets, never eight: with one-per-neighbor counting, the corner's
/// neighbor sum cannot exceed 3.
pub proof fn lemma_corner_sees_at_most_three(g: Grid, r: Rules)
    requires
        g.wf(),
        r.kernel == Kernel::Moore,
        r.kind.is_bool_kind(),
    ensures
        0 <= neighbor_sum(g, r, 0, 0) <= 3,
{
    reveal_with_fuel(partial_neighbor_sum, 10);
    assert(cell_term(g, r, 0, 0, 0) == 0);
    assert(cell_term(g, r, 0, 0, 1) == 0);
    assert(cell_term(g, r, 0, 0, 2) == 0);
    assert(cell_term(g, r, 0, 0, 3) == 0);
    assert(cell_term(g, r, 0, 0, 4) == 0);
    assert(cell_term(g, r, 0, 0, 6) == 0);
    assert(0 <= cell_term(g, r, 0, 0, 5) <= 1);
    assert(0 <= cell_term(g, r, 0, 0, 7) <= 1);
    assert(0 <= cell_term(g, r, 0, 0, 8) <= 1);
}

} // verus!
