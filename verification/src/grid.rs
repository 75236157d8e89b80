//! The grid data model: a fixed W×H array of cells, each carrying the
//! committed `alive` flag and the double-buffered `pending_alive` flag, with
//! bounded reads/writes, randomize/clear, the synchronous rule pass, and the
//! atomic commit.

use vstd::prelude::*;

use crate::rules::life_rule;

verus! {

/// One grid position: the committed, externally observable state (`alive`)
/// and the next-generation value computed during a step (`pending_alive`).
#[derive(Clone, Copy, PartialEq, Eq, Structural, Debug)]
pub struct LifeCell {
    pub alive: bool,
    pub pending_alive: bool,
}

impl LifeCell {
    /// A dead cell with no pending change.
    pub fn new() -> (c: LifeCell)
        ensures
            !c.alive,
            !c.pending_alive,
    {
        LifeCell { alive: false, pending_alive: false }
    }
}

/// The error returned by the bounded accessors when a coordinate lies outside
/// `[0, W) × [0, H)`. A correct caller never triggers it.
#[derive(Clone, Copy, PartialEq, Eq, Structural, Debug)]
pub struct OutOfBounds;

/// Mathematical image of a grid: its dimensions and the committed and pending
/// flags as sequences indexed by `y * width + x`.
pub struct GridView {
    pub width: int,
    pub height: int,
    pub alive: Seq<bool>,
    pub pending: Seq<bool>,
}

/// Whether `(x, y)` lies inside a `w × h` grid.
pub open spec fn in_bounds(w: int, h: int, x: int, y: int) -> bool {
    0 <= x < w && 0 <= y < h
}

/// Whether the cell at `(x, y)` is alive in the committed generation `g` of a
/// `w × h` grid; out-of-bounds coordinates count as dead.
pub open spec fn live_at(g: Seq<bool>, w: int, h: int, x: int, y: int) -> bool {
    in_bounds(w, h, x, y) && g[y * w + x]
}

/// 1 if the cell at `(x, y)` is alive, 0 otherwise.
pub open spec fn live_flag(g: Seq<bool>, w: int, h: int, x: int, y: int) -> nat {
    if live_at(g, w, h, x, y) {
        1
    } else {
        0
    }
}

/// The number of live cells in the bounded Moore neighborhood of `(x, y)`:
/// the up-to-8 adjacent coordinates, without wraparound.
pub open spec fn neighbor_count(g: Seq<bool>, w: int, h: int, x: int, y: int) -> nat {
    live_flag(g, w, h, x - 1, y - 1) + live_flag(g, w, h, x, y - 1) + live_flag(
        g,
        w,
        h,
        x + 1,
        y - 1,
    ) + live_flag(g, w, h, x - 1, y) + live_flag(g, w, h, x + 1, y) + live_flag(
        g,
        w,
        h,
        x - 1,
        y + 1,
    ) + live_flag(g, w, h, x, y + 1) + live_flag(g, w, h, x + 1, y + 1)
}

/// One synchronous generation step of the whole grid: every cell's next state
/// is Conway's rule applied to its committed state and the live-neighbor
/// count taken entirely from the same committed generation `g`.
pub open spec fn step_spec(g: Seq<bool>, w: int, h: int) -> Seq<bool> {
    Seq::new(g.len(), |i: int| life_rule(g[i], neighbor_count(g, w, h, i % w, i / w)))
}

/// The all-dead generation of a `w × h` grid.
pub open spec fn dead_grid(w: int, h: int) -> Seq<bool> {
    Seq::new((w * h) as nat, |i: int| false)
}

/// A coordinate inside a `w × h` grid addresses a slot of the flat array.
pub proof fn lemma_idx_bound(w: int, h: int, x: int, y: int)
    requires
        in_bounds(w, h, x, y),
    ensures
        0 <= y * w + x < w * h,
{
    assert(0 <= y * w + x < w * h) by (nonlinear_arith)
        requires
            0 <= x < w,
            0 <= y < h,
    ;
}

/// The flat index `y * w + x` decomposes back into `x` and `y`.
pub proof fn lemma_idx_coords(w: int, x: int, y: int)
    requires
        0 <= x < w,
        0 <= y,
    ensures
        (y * w + x) % w == x,
        (y * w + x) / w == y,
{
    vstd::arithmetic::div_mod::lemma_fundamental_div_mod_converse(y * w + x, w, y, x);
}

/// Determinism of a generation step: the next generation is a pure function
/// of the committed generation, so two runs of one step over identical
/// committed grids produce identical grids.
pub proof fn lemma_step_deterministic(g1: Seq<bool>, g2: Seq<bool>, w: int, h: int)
    requires
        g1 == g2,
    ensures
        step_spec(g1, w, h) == step_spec(g2, w, h),
{
}

/// A dead cell never counts toward any neighbor count.
pub proof fn lemma_live_flag_dead(w: int, h: int, a: int, b: int)
    requires
        w >= 1,
        h >= 1,
    ensures
        live_flag(dead_grid(w, h), w, h, a, b) == 0,
{
    if in_bounds(w, h, a, b) {
        lemma_idx_bound(w, h, a, b);
        assert(!dead_grid(w, h)[b * w + a]);
    }
}

/// Every neighbor count over the all-dead generation is zero.
pub proof fn lemma_neighbor_count_dead(w: int, h: int, x: int, y: int)
    requires
        w >= 1,
        h >= 1,
    ensures
        neighbor_count(dead_grid(w, h), w, h, x, y) == 0,
{
    lemma_live_flag_dead(w, h, x - 1, y - 1);
    lemma_live_flag_dead(w, h, x, y - 1);
    lemma_live_flag_dead(w, h, x + 1, y - 1);
    lemma_live_flag_dead(w, h, x - 1, y);
    lemma_live_flag_dead(w, h, x + 1, y);
    lemma_live_flag_dead(w, h, x - 1, y + 1);
    lemma_live_flag_dead(w, h, x, y + 1);
    lemma_live_flag_dead(w, h, x + 1, y + 1);
}

/// A cleared grid stays dead: stepping the all-dead generation yields the
/// all-dead generation again.
pub proof fn lemma_dead_grid_stays_dead(w: int, h: int)
    requires
        w >= 1,
        h >= 1,
    ensures
        step_spec(dead_grid(w, h), w, h) == dead_grid(w, h),
{
    assert forall|i: int| 0 <= i < w * h implies step_spec(dead_grid(w, h), w, h)[i]
        == dead_grid(w, h)[i] by {
        lemma_neighbor_count_dead(w, h, i % w, i / w);
    }
    assert(step_spec(dead_grid(w, h), w, h) =~= dead_grid(w, h));
}

/// The grid: fixed positive dimensions set at construction, owning exactly
/// `width * height` cells addressed by `y * width + x`.
pub struct Grid {
    width: usize,
    height: usize,
    cells: Vec<LifeCell>,
}

impl View for Grid {
    type V = GridView;

    closed spec fn view(&self) -> GridView {
        GridView {
            width: self.width as int,
            height: self.height as int,
            alive: self.cells@.map(|i: int, c: LifeCell| c.alive),
            pending: self.cells@.map(|i: int, c: LifeCell| c.pending_alive),
        }
    }
}

impl Grid {
    /// Dimensions are positive and the flat array has one slot per coordinate.
    pub open spec fn wf(&self) -> bool {
        &&& self@.width >= 1
        &&& self@.height >= 1
        &&& self@.alive.len() == self@.width * self@.height
        &&& self@.width * self@.height <= usize::MAX
        &&& self@.pending.len() == self@.alive.len()
    }

    /// No stale pending values: outside of an in-progress step every cell's
    /// pending flag equals its committed flag.
    pub open spec fn mirrored(&self) -> bool {
        self@.pending == self@.alive
    }

    /// Builds an all-dead grid. Zero dimensions are rejected at this boundary
    /// by the precondition: the core never works on a degenerate grid.
    pub fn new(width: usize, height: usize) -> (g: Grid)
        requires
            width >= 1,
            height >= 1,
            width * height <= usize::MAX,
        ensures
            g.wf(),
            g.mirrored(),
            g@.width == width,
            g@.height == height,
            g@.alive == dead_grid(width as int, height as int),
    {
        let n: usize = width * height;
        let mut cells: Vec<LifeCell> = Vec::new();
        let mut i: usize = 0;
        while i < n
            invariant
                i <= n,
                cells@.len() == i,
                forall|j: int| 0 <= j < i ==> cells@[j] == (LifeCell { alive: false, pending_alive: false }),
            decreases n - i,
        {
            cells.push(LifeCell::new());
            i = i + 1;
        }
        let g = Grid { width, height, cells };
        proof {
            assert(g@.alive =~= dead_grid(width as int, height as int));
            assert(g@.pending =~= g@.alive);
        }
        g
    }

    /// Committed width.
    pub fn width(&self) -> (w: usize)
        ensures
            w == self@.width,
    {
        self.width
    }

    /// Committed height.
    pub fn height(&self) -> (h: usize)
        ensures
            h == self@.height,
    {
        self.height
    }

    /// Committed state of the in-bounds cell `(x, y)`.
    fn cell_alive(&self, x: usize, y: usize) -> (b: bool)
        requires
            self.wf(),
            x < self@.width,
            y < self@.height,
        ensures
            b == live_at(self@.alive, self@.width, self@.height, x as int, y as int),
    {
        proof {
            lemma_idx_bound(self@.width, self@.height, x as int, y as int);
        }
        self.cells[y * self.width + x].alive
    }

    /// Bounded read of the committed state, as the renderer sees it.
    pub fn get(&self, x: usize, y: usize) -> (r: Result<bool, OutOfBounds>)
        requires
            self.wf(),
        ensures
            in_bounds(self@.width, self@.height, x as int, y as int) ==> r == Ok::<
                bool,
                OutOfBounds,
            >(self@.alive[y as int * self@.width + x as int]),
            !in_bounds(self@.width, self@.height, x as int, y as int) ==> r == Err::<
                bool,
                OutOfBounds,
            >(OutOfBounds),
    {
        if x < self.width && y < self.height {
            Ok(self.cell_alive(x, y))
        } else {
            Err(OutOfBounds)
        }
    }

    /// Bounded direct write: sets the committed state of `(x, y)` and mirrors
    /// it into the pending flag. Used by seeding, never by the rule pass.
    pub fn set_alive(&mut self, x: usize, y: usize, value: bool) -> (r: Result<(), OutOfBounds>)
        requires
            old(self).wf(),
        ensures
            final(self).wf(),
            final(self)@.width == old(self)@.width,
            final(self)@.height == old(self)@.height,
            in_bounds(old(self)@.width, old(self)@.height, x as int, y as int) ==> {
                &&& r == Ok::<(), OutOfBounds>(())
                &&& final(self)@.alive == old(self)@.alive.update(
                    y as int * old(self)@.width + x as int,
                    value,
                )
                &&& final(self)@.pending == old(self)@.pending.update(
                    y as int * old(self)@.width + x as int,
                    value,
                )
            },
            !in_bounds(old(self)@.width, old(self)@.height, x as int, y as int) ==> {
                &&& r == Err::<(), OutOfBounds>(OutOfBounds)
                &&& *final(self) == *old(self)
            },
    {
        if x < self.width && y < self.height {
            proof {
                lemma_idx_bound(self@.width, self@.height, x as int, y as int);
            }
            let i: usize = y * self.width + x;
            self.cells.set(i, LifeCell { alive: value, pending_alive: value });
            proof {
                assert(self@.alive =~= old(self)@.alive.update(i as int, value));
                assert(self@.pending =~= old(self)@.pending.update(i as int, value));
            }
            Ok(())
        } else {
            Err(OutOfBounds)
        }
    }

    /// Live cells in the bounded Moore neighborhood of the in-bounds cell
    /// `(x, y)`, read entirely from the committed generation.
    pub fn count_live_neighbors(&self, x: usize, y: usize) -> (n: u8)
        requires
            self.wf(),
            x < self@.width,
            y < self@.height,
        ensures
            n as nat == neighbor_count(self@.alive, self@.width, self@.height, x as int, y as int),
            n <= 8,
    {
        let mut n: u8 = 0;
        if x > 0 && y > 0 && self.cell_alive(x - 1, y - 1) {
            n = n + 1;
        }
        if y > 0 && self.cell_alive(x, y - 1) {
            n = n + 1;
        }
        if x + 1 < self.width && y > 0 && self.cell_alive(x + 1, y - 1) {
            n = n + 1;
        }
        if x > 0 && self.cell_alive(x - 1, y) {
            n = n + 1;
        }
        if x + 1 < self.width && self.cell_alive(x + 1, y) {
            n = n + 1;
        }
        if x > 0 && y + 1 < self.height && self.cell_alive(x - 1, y + 1) {
            n = n + 1;
        }
        if y + 1 < self.height && self.cell_alive(x, y + 1) {
            n = n + 1;
        }
        if x + 1 < self.width && y + 1 < self.height && self.cell_alive(x + 1, y + 1) {
            n = n + 1;
        }
        n
    }

    /// The synchronous rule pass: writes every cell's next state into its
    /// pending flag, computed from the committed generation alone. No cell's
    /// freshly written pending value is ever read back during the pass, so
    /// the result is independent of traversal order.
    pub fn compute_next(&mut self)
        requires
            old(self).wf(),
        ensures
            final(self).wf(),
            final(self)@.width == old(self)@.width,
            final(self)@.height == old(self)@.height,
            final(self)@.alive == old(self)@.alive,
            final(self)@.pending == step_spec(
                old(self)@.alive,
                old(self)@.width,
                old(self)@.height,
            ),
    {
        let ghost a0 = self@.alive;
        let ghost w = self@.width;
        let ghost h = self@.height;
        let n: usize = self.cells.len();
        let mut i: usize = 0;
        while i < n
            invariant
                i <= n,
                self.wf(),
                self@.width == w,
                self@.height == h,
                n == self@.alive.len(),
                self@.alive == a0,
                forall|j: int| 0 <= j < i ==> self@.pending[j] == step_spec(a0, w, h)[j],
            decreases n - i,
        {
            let x: usize = i % self.width;
            let y: usize = i / self.width;
            proof {
                assert(x < w && y < h && y * w + x == i) by (nonlinear_arith)
                    requires
                        w >= 1,
                        h >= 1,
                        0 <= i < w * h,
                        x == i as int % w,
                        y == i as int / w,
                ;
            }
            let count = self.count_live_neighbors(x, y);
            let cell = self.cells[i];
            let next = crate::rules::next_state(cell.alive, count);
            self.cells.set(i, LifeCell { alive: cell.alive, pending_alive: next });
            proof {
                assert(self@.alive =~= a0);
                lemma_idx_coords(w, x as int, y as int);
                assert(self@.pending[i as int] == step_spec(a0, w, h)[i as int]);
            }
            i = i + 1;
        }
        proof {
            assert(self@.pending =~= step_spec(a0, w, h));
        }
    }

    /// The atomic commit: every cell's committed state becomes its pending
    /// state, grid-wide, so observers never see a mix of two generations.
    pub fn commit(&mut self)
        requires
            old(self).wf(),
        ensures
            final(self).wf(),
            final(self).mirrored(),
            final(self)@.width == old(self)@.width,
            final(self)@.height == old(self)@.height,
            final(self)@.alive == old(self)@.pending,
            final(self)@.pending == old(self)@.pending,
    {
        let ghost p0 = self@.pending;
        let ghost w = self@.width;
        let ghost h = self@.height;
        let n: usize = self.cells.len();
        let mut i: usize = 0;
        while i < n
            invariant
                i <= n,
                self.wf(),
                self@.width == w,
                self@.height == h,
                n == self@.alive.len(),
                self@.pending == p0,
                forall|j: int| 0 <= j < i ==> self@.alive[j] == p0[j],
            decreases n - i,
        {
            let cell = self.cells[i];
            self.cells.set(i, LifeCell { alive: cell.pending_alive, pending_alive: cell.pending_alive });
            proof {
                assert(self@.pending =~= p0);
            }
            i = i + 1;
        }
        proof {
            assert(self@.alive =~= p0);
        }
    }

    /// One full generation step: the synchronous rule pass followed by the
    /// commit.
    pub fn step(&mut self)
        requires
            old(self).wf(),
        ensures
            final(self).wf(),
            final(self).mirrored(),
            final(self)@.width == old(self)@.width,
            final(self)@.height == old(self)@.height,
            final(self)@.alive == step_spec(old(self)@.alive, old(self)@.width, old(self)@.height),
    {
        self.compute_next();
        self.commit();
    }

    /// Kills every cell, mirroring the pending flags.
    pub fn clear(&mut self)
        requires
            old(self).wf(),
        ensures
            final(self).wf(),
            final(self).mirrored(),
            final(self)@.width == old(self)@.width,
            final(self)@.height == old(self)@.height,
            final(self)@.alive == dead_grid(old(self)@.width, old(self)@.height),
    {
        let ghost w = self@.width;
        let ghost h = self@.height;
        let n: usize = self.cells.len();
        let mut i: usize = 0;
        while i < n
            invariant
                i <= n,
                self.wf(),
                self@.width == w,
                self@.height == h,
                n == self@.alive.len(),
                forall|j: int| 0 <= j < i ==> self@.alive[j] == false,
                forall|j: int| 0 <= j < i ==> self@.pending[j] == false,
            decreases n - i,
        {
            let ghost va = self@.alive;
            let ghost vp = self@.pending;
            self.cells.set(i, LifeCell { alive: false, pending_alive: false });
            proof {
                assert(self@.alive =~= va.update(i as int, false));
                assert(self@.pending =~= vp.update(i as int, false));
            }
            i = i + 1;
        }
        proof {
            assert(self@.alive =~= dead_grid(w, h));
            assert(self@.pending =~= self@.alive);
        }
    }

    /// Re-seeds every cell independently with a coin flip, mirroring the
    /// pending flags. The drawn values are random, so nothing is promised of
    /// them beyond the grid shape and the mirror invariant.
    pub fn randomize(&mut self)
        requires
            old(self).wf(),
        ensures
            final(self).wf(),
            final(self).mirrored(),
            final(self)@.width == old(self)@.width,
            final(self)@.height == old(self)@.height,
    {
        let ghost w = self@.width;
        let ghost h = self@.height;
        let n: usize = self.cells.len();
        let mut i: usize = 0;
        while i < n
            invariant
                i <= n,
                self.wf(),
                self@.width == w,
                self@.height == h,
                n == self@.alive.len(),
                forall|j: int| 0 <= j < i ==> self@.pending[j] == self@.alive[j],
            decreases n - i,
        {
            let ghost va = self@.alive;
            let ghost vp = self@.pending;
            let b = random_bool();
            self.cells.set(i, LifeCell { alive: b, pending_alive: b });
            proof {
                assert(self@.alive =~= va.update(i as int, b));
                assert(self@.pending =~= vp.update(i as int, b));
            }
            i = i + 1;
        }
        proof {
            assert(self@.pending =~= self@.alive);
        }
    }
}

/// Relies on `rand::random::<bool>`: one independent draw of a uniformly
/// distributed boolean, each outcome with probability 1/2. The result is
/// random, so no clause constrains it.
#[verifier::external_body]
fn random_bool() -> bool {
    rand::random::<bool>()
}

} // verus!
