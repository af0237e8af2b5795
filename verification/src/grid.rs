//! The automaton engine: a toroidal Game-of-Life grid.
//!
//! Cells live in a flat buffer of `width * height` booleans, addressed by
//! `y * width + x`. Neighbor counting wraps around both edges, so the grid
//! is topologically a torus.

use vstd::prelude::*;
use vstd::arithmetic::div_mod::lemma_fundamental_div_mod;
use vstd::arithmetic::div_mod::lemma_fundamental_div_mod_converse_mod;
use vstd::arithmetic::div_mod::lemma_div_pos_is_pos;
use vstd::arithmetic::div_mod::lemma_mod_division_less_than_divisor;
use vstd::arithmetic::div_mod::lemma_multiply_divide_lt;

verus! {

/// One alive cell counts as 1 toward a neighbor sum, a dead cell as 0.
pub open spec fn b2i(b: bool) -> int {
    if b {
        1
    } else {
        0
    }
}

/// Wrapped coordinate of a cell's 3x3 window: offsets `0, 1, 2` stand for
/// `-1, 0, +1`, folded into `[0, dim)` by `(c + off + dim - 1) % dim`.
pub open spec fn wrap(c: int, off: int, dim: int) -> int {
    (c + off + dim - 1) % dim
}

/// The exact value of `wrap` for an in-range coordinate and each offset.
pub proof fn lemma_wrap_value(c: int, off: int, dim: int)
    requires
        0 <= c < dim,
        0 <= off <= 2,
    ensures
        off == 0 ==> wrap(c, off, dim) == (if c == 0 {
            dim - 1
        } else {
            c - 1
        }),
        off == 1 ==> wrap(c, off, dim) == c,
        off == 2 ==> wrap(c, off, dim) == (if c == dim - 1 {
            0
        } else {
            c + 1
        }),
        0 <= wrap(c, off, dim) < dim,
{
    if off == 0 {
        if c == 0 {
            lemma_fundamental_div_mod_converse_mod(c + off + dim - 1, dim, 0, dim - 1);
        } else {
            lemma_fundamental_div_mod_converse_mod(c + off + dim - 1, dim, 1, c - 1);
        }
    } else if off == 1 {
        lemma_fundamental_div_mod_converse_mod(c + off + dim - 1, dim, 1, c);
    } else {
        if c == dim - 1 {
            lemma_fundamental_div_mod_converse_mod(c + off + dim - 1, dim, 2, 0);
        } else {
            lemma_fundamental_div_mod_converse_mod(c + off + dim - 1, dim, 1, c + 1);
        }
    }
}

/// A flat index `y * w + x` stays below `w * h` for in-range coordinates.
proof fn lemma_flat_index_bound(w: int, h: int, x: int, y: int)
    by (nonlinear_arith)
    requires
        1 <= w,
        1 <= h,
        0 <= x < w,
        0 <= y < h,
    ensures
        0 <= y * w + x < w * h,
{
}

/// Flat indices follow the row-major order of coordinate pairs.
proof fn lemma_flat_index_order(w: int, x1: int, y1: int, x2: int, y2: int)
    by (nonlinear_arith)
    requires
        0 <= x1 < w,
        0 <= x2 < w,
        0 <= y1,
        0 <= y2,
        y1 < y2 || (y1 == y2 && x1 < x2),
    ensures
        y1 * w + x1 < y2 * w + x2,
{
}

/// Distinct in-range coordinate pairs have distinct flat indices.
proof fn lemma_flat_index_distinct(w: int, x1: int, y1: int, x2: int, y2: int)
    by (nonlinear_arith)
    requires
        0 <= x1 < w,
        0 <= x2 < w,
        0 <= y1,
        0 <= y2,
        !(x1 == x2 && y1 == y2),
    ensures
        y1 * w + x1 != y2 * w + x2,
{
}

/// `post` is `pre` with the single cell `(x, y)` set to `alive` and every
/// other cell left as it was.
pub open spec fn grid_written(pre: Grid, post: Grid, x: int, y: int, alive: bool) -> bool {
    &&& post.same_dims(&pre)
    &&& post.at(x, y) == alive
    &&& forall|a: int, b: int|
        0 <= a < pre.spec_width() && 0 <= b < pre.spec_height() && !(a == x && b == y)
            ==> post.at(a, b) == pre.at(a, b)
}

/// The Game-of-Life transition rule: an alive cell survives with 2 or 3
/// neighbors, a dead cell is born with exactly 3, and every other count
/// leaves the cell dead.
pub open spec fn life_rule(alive: bool, neighbors: int) -> bool {
    if alive {
        2 <= neighbors && neighbors <= 3
    } else {
        neighbors == 3
    }
}

/// One step of the transition rule for a single cell. Counts outside
/// `[0, 8]` cannot arise from an 8-cell neighborhood, so they are ruled out
/// rather than handled.
pub fn transition(alive: bool, neighbors: u8) -> (next: bool)
    requires
        neighbors <= 8,
    ensures
        next == life_rule(alive, neighbors as int),
{
    if alive {
        neighbors == 2 || neighbors == 3
    } else {
        neighbors == 3
    }
}

/// Wraps a coordinate one step toward the low edge: `0` goes to `dim - 1`.
fn wrap_dec(c: usize, dim: usize) -> (r: usize)
    requires
        c < dim,
    ensures
        r as int == wrap(c as int, 0, dim as int),
        r < dim,
{
    proof {
        lemma_wrap_value(c as int, 0, dim as int);
    }
    if c == 0 {
        dim - 1
    } else {
        c - 1
    }
}

/// Wraps a coordinate one step toward the high edge: `dim - 1` goes to `0`.
fn wrap_inc(c: usize, dim: usize) -> (r: usize)
    requires
        c < dim,
    ensures
        r as int == wrap(c as int, 2, dim as int),
        r < dim,
{
    proof {
        lemma_wrap_value(c as int, 2, dim as int);
    }
    if c + 1 == dim {
        0
    } else {
        c + 1
    }
}

/// Relies on rand::random: draws a bool from the thread-local generator,
/// each outcome with probability one half; nothing can be stated of the
/// value that comes back.
#[verifier::external_body]
fn coin_flip() -> bool {
    rand::random()
}

/// The rectangular cell grid, wrapped at both edges.
pub struct Grid {
    cells: Vec<bool>,
    width: usize,
    height: usize,
}

impl Grid {
    /// Number of columns.
    pub closed spec fn spec_width(&self) -> int {
        self.width as int
    }

    /// Number of rows.
    pub closed spec fn spec_height(&self) -> int {
        self.height as int
    }

    /// The flat buffer, row by row: cell `(x, y)` sits at `y * width + x`.
    pub closed spec fn cells_view(&self) -> Seq<bool> {
        self.cells@
    }

    /// Both dimensions are positive and the buffer covers exactly the grid.
    pub open spec fn wf(&self) -> bool {
        &&& 1 <= self.spec_width()
        &&& 1 <= self.spec_height()
        &&& self.spec_width() * self.spec_height() == self.cells_view().len()
    }

    /// Whether the cell at `(x, y)` is alive.
    pub open spec fn at(&self, x: int, y: int) -> bool {
        self.cells_view()[y * self.spec_width() + x]
    }

    /// Every cell of the grid is dead.
    pub open spec fn all_dead(&self) -> bool {
        forall|k: int| 0 <= k < self.cells_view().len() ==> !self.cells_view()[k]
    }

    /// The two grids have the same dimensions.
    pub open spec fn same_dims(&self, other: &Grid) -> bool {
        self.spec_width() == other.spec_width() && self.spec_height() == other.spec_height()
    }

    /// Number of columns, for callers.
    pub fn width(&self) -> (w: usize)
        ensures
            w as int == self.spec_width(),
    {
        self.width
    }

    /// Number of rows, for callers.
    pub fn height(&self) -> (h: usize)
        ensures
            h as int == self.spec_height(),
    {
        self.height
    }

    /// Creates an all-dead grid of the given dimensions.
    pub fn new(width: usize, height: usize) -> (g: Grid)
        requires
            1 <= width,
            1 <= height,
            width * height <= usize::MAX,
        ensures
            g.wf(),
            g.spec_width() == width,
            g.spec_height() == height,
            g.all_dead(),
    {
        let n: usize = width * height;
        let mut cells: Vec<bool> = Vec::new();
        let mut i: usize = 0;
        while i < n
            invariant
                i <= n,
                cells@.len() == i,
                forall|k: int| 0 <= k < i ==> !cells@[k],
            decreases n - i,
        {
            cells.push(false);
            i = i + 1;
        }
        Grid { cells, width, height }
    }

    /// Sets the cell at `(x, y)`; the caller must already have clamped the
    /// coordinates into bounds. Every other cell is left as it was.
    pub fn write_cell(&mut self, x: usize, y: usize, alive: bool)
        requires
            old(self).wf(),
            x < old(self).spec_width(),
            y < old(self).spec_height(),
        ensures
            final(self).wf(),
            grid_written(*old(self), *final(self), x as int, y as int, alive),
    {
        let n: usize = self.cells.len();
        proof {
            lemma_flat_index_bound(self.spec_width(), self.spec_height(), x as int, y as int);
        }
        self.cells.set(y * self.width + x, alive);
        proof {
            assert forall|a: int, b: int|
                0 <= a < old(self).spec_width() && 0 <= b < old(self).spec_height() && !(a == x
                    && b == y) implies self.at(a, b) == old(self).at(a, b) by {
                lemma_flat_index_bound(old(self).spec_width(), old(self).spec_height(), a, b);
                lemma_flat_index_distinct(old(self).spec_width(), a, b, x as int, y as int);
            }
        }
    }

    /// Sets every cell to dead. Clearing an already-clear grid changes
    /// nothing: the buffer comes out exactly as it went in.
    pub fn clear(&mut self)
        requires
            old(self).wf(),
        ensures
            final(self).wf(),
            final(self).same_dims(old(self)),
            final(self).all_dead(),
            old(self).all_dead() ==> final(self).cells_view() == old(self).cells_view(),
    {
        let n: usize = self.cells.len();
        let mut i: usize = 0;
        while i < n
            invariant
                i <= n,
                self.cells@.len() == n,
                self.width == old(self).width,
                self.height == old(self).height,
                forall|k: int| 0 <= k < i ==> !self.cells@[k],
                forall|k: int| i <= k < n ==> self.cells@[k] == old(self).cells@[k],
            decreases n - i,
        {
            self.cells.set(i, false);
            i = i + 1;
        }
        proof {
            if old(self).all_dead() {
                assert(self.cells_view() =~= old(self).cells_view());
            }
        }
    }

    /// Reseeds the whole board: every cell is drawn alive or dead at random,
    /// so nothing is promised of the cell values, only that the grid keeps
    /// its shape.
    pub fn seed_random(&mut self)
        requires
            old(self).wf(),
        ensures
            final(self).wf(),
            final(self).same_dims(old(self)),
    {
        let n: usize = self.cells.len();
        let mut i: usize = 0;
        while i < n
            invariant
                i <= n,
                self.cells@.len() == n,
                self.width == old(self).width,
                self.height == old(self).height,
            decreases n - i,
        {
            let alive = coin_flip();
            self.cells.set(i, alive);
            i = i + 1;
        }
    }

    /// Reads the cell at `(x, y)`.
    pub fn get(&self, x: usize, y: usize) -> (alive: bool)
        requires
            self.wf(),
            x < self.spec_width(),
            y < self.spec_height(),
        ensures
            alive == self.at(x as int, y as int),
    {
        let n: usize = self.cells.len();
        proof {
            lemma_flat_index_bound(self.spec_width(), self.spec_height(), x as int, y as int);
        }
        self.cells[y * self.width + x]
    }

    /// One term of the 3x3 window around `(x, y)`: the alive-count of the
    /// cell reached by wrapped offsets `(i, j)`, each drawn from `{0, 1, 2}`
    /// standing for `{-1, 0, +1}`.
    pub open spec fn nbr_term(&self, x: int, y: int, i: int, j: int) -> int {
        b2i(self.at(wrap(x, i, self.spec_width()), wrap(y, j, self.spec_height())))
    }

    /// The raw alive-count of the whole 3x3 window around `(x, y)`, the
    /// center included.
    pub open spec fn raw_window(&self, x: int, y: int) -> int {
        self.nbr_term(x, y, 0, 0) + self.nbr_term(x, y, 0, 1) + self.nbr_term(x, y, 0, 2)
            + self.nbr_term(x, y, 1, 0) + self.nbr_term(x, y, 1, 1) + self.nbr_term(x, y, 1, 2)
            + self.nbr_term(x, y, 2, 0) + self.nbr_term(x, y, 2, 1) + self.nbr_term(x, y, 2, 2)
    }

    /// The toroidal neighbor count of `(x, y)`: the raw 3x3 window sum with
    /// the center cell's own state taken back out.
    pub open spec fn neighbor_count(&self, x: int, y: int) -> int {
        self.raw_window(x, y) - b2i(self.at(x, y))
    }

    /// Counts the alive cells among the 8 toroidal neighbors of `(x, y)`,
    /// the cell itself excluded.
    pub fn count_neighbors(&self, x: usize, y: usize) -> (count: u8)
        requires
            self.wf(),
            x < self.spec_width(),
            y < self.spec_height(),
        ensures
            count as int == self.neighbor_count(x as int, y as int),
            count <= 8,
    {
        let w: usize = self.width;
        let h: usize = self.height;
        let xm = wrap_dec(x, w);
        let xp = wrap_inc(x, w);
        let ym = wrap_dec(y, h);
        let yp = wrap_inc(y, h);
        proof {
            lemma_wrap_value(x as int, 1, w as int);
            lemma_wrap_value(y as int, 1, h as int);
        }
        let mut count: u8 = 0;
        if self.get(xm, ym) {
            count = count + 1;
        }
        if self.get(x, ym) {
            count = count + 1;
        }
        if self.get(xp, ym) {
            count = count + 1;
        }
        if self.get(xm, y) {
            count = count + 1;
        }
        if self.get(xp, y) {
            count = count + 1;
        }
        if self.get(xm, yp) {
            count = count + 1;
        }
        if self.get(x, yp) {
            count = count + 1;
        }
        if self.get(xp, yp) {
            count = count + 1;
        }
        count
    }

    /// The state that `(x, y)` takes in the next generation: the transition
    /// rule applied to its current state and its current neighbor count.
    pub open spec fn stepped_at(&self, x: int, y: int) -> bool {
        life_rule(self.at(x, y), self.neighbor_count(x, y))
    }

    /// Advances the whole grid one generation. Every neighbor count is taken
    /// from the grid as it stood before the step: the new states are built
    /// into a fresh buffer and swapped in at the end, so no cell's update can
    /// corrupt a later cell's count.
    pub fn step(&mut self)
        requires
            old(self).wf(),
        ensures
            final(self).wf(),
            final(self).same_dims(old(self)),
            forall|x: int, y: int|
                0 <= x < old(self).spec_width() && 0 <= y < old(self).spec_height()
                    ==> final(self).at(x, y) == old(self).stepped_at(x, y),
    {
        let w: usize = self.width;
        let h: usize = self.height;
        let mut next: Vec<bool> = Vec::new();
        let mut y: usize = 0;
        while y < h
            invariant
                *self == *old(self),
                self.wf(),
                w == self.width,
                h == self.height,
                y <= h,
                next@.len() == y * (w as int),
                forall|a: int, b: int|
                    0 <= a < w && 0 <= b < y ==> next@[b * (w as int) + a] == old(
                        self,
                    ).stepped_at(a, b),
            decreases h - y,
        {
            let mut x: usize = 0;
            while x < w
                invariant
                    *self == *old(self),
                    self.wf(),
                    w == self.width,
                    h == self.height,
                    y < h,
                    x <= w,
                    next@.len() == y * (w as int) + x,
                    forall|a: int, b: int|
                        0 <= a < w && 0 <= b < h && (b < y || (b == y && a < x)) ==> next@[b * (
                        w as int) + a] == old(self).stepped_at(a, b),
                decreases w - x,
            {
                let alive = self.get(x, y);
                let n = self.count_neighbors(x, y);
                let v = transition(alive, n);
                next.push(v);
                proof {
                    assert forall|a: int, b: int|
                        0 <= a < w && 0 <= b < h && (b < y || (b == y && a < x + 1)) implies next@[b
                        * (w as int) + a] == old(self).stepped_at(a, b) by {
                        if b == y && a == x {
                            assert(next@[b * (w as int) + a] == v);
                        } else {
                            lemma_flat_index_order(w as int, a, b, x as int, y as int);
                        }
                    }
                }
                x = x + 1;
            }
            proof {
                assert((y as int + 1) * (w as int) == y * (w as int) + w) by (nonlinear_arith);
            }
            y = y + 1;
        }
        self.cells = next;
        proof {
            assert((w as int) * (h as int) == (h as int) * (w as int)) by (nonlinear_arith);
            assert forall|x: int, y: int|
                0 <= x < old(self).spec_width() && 0 <= y < old(self).spec_height() implies self.at(
                x, y) == old(self).stepped_at(x, y) by {
                lemma_flat_index_bound(w as int, h as int, x, y);
            }
        }
    }
}

/// The transition rule over every neighbor count a cell can see: an alive
/// cell dies of underpopulation at 0 or 1 neighbors, survives at 2 or 3, and
/// dies of overpopulation at 4 through 8; a dead cell is born at exactly 3
/// and stays dead at every other count.
pub proof fn lemma_transition_table()
    ensures
        forall|n: int| 0 <= n <= 1 ==> !life_rule(true, n),
        forall|n: int| 2 <= n <= 3 ==> life_rule(true, n),
        forall|n: int| 4 <= n <= 8 ==> !life_rule(true, n),
        life_rule(false, 3),
        forall|n: int| 0 <= n <= 8 && n != 3 ==> !life_rule(false, n),
{
}

/// The grid is a torus: the neighborhood of the corner `(0, 0)` reaches the
/// far column `width - 1` and the far row `height - 1`, cell `(width - 1,
/// height - 1)` among them.
pub proof fn lemma_toroidal_wrap(g: Grid)
    requires
        g.wf(),
        2 <= g.spec_width(),
        2 <= g.spec_height(),
    ensures
        g.neighbor_count(0, 0) == b2i(g.at(g.spec_width() - 1, g.spec_height() - 1)) + b2i(
            g.at(g.spec_width() - 1, 0),
        ) + b2i(g.at(g.spec_width() - 1, 1)) + b2i(g.at(0, g.spec_height() - 1)) + b2i(g.at(0, 1))
            + b2i(g.at(1, g.spec_height() - 1)) + b2i(g.at(1, 0)) + b2i(g.at(1, 1)),
{
    lemma_wrap_value(0, 0, g.spec_width());
    lemma_wrap_value(0, 1, g.spec_width());
    lemma_wrap_value(0, 2, g.spec_width());
    lemma_wrap_value(0, 0, g.spec_height());
    lemma_wrap_value(0, 1, g.spec_height());
    lemma_wrap_value(0, 2, g.spec_height());
}

/// A cell is not its own neighbor: if `(x, y)` is the only alive cell of the
/// grid, its own neighbor count is 0. On a width- or height-1 torus the
/// window would fold back onto the cell itself, so both dimensions must be
/// at least 2.
pub proof fn lemma_self_exclusion(g: Grid, x: int, y: int)
    requires
        g.wf(),
        2 <= g.spec_width(),
        2 <= g.spec_height(),
        0 <= x < g.spec_width(),
        0 <= y < g.spec_height(),
        g.at(x, y),
        forall|a: int, b: int|
            0 <= a < g.spec_width() && 0 <= b < g.spec_height() && !(a == x && b == y) ==> !g.at(
                a,
                b,
            ),
    ensures
        g.neighbor_count(x, y) == 0,
{
    lemma_wrap_value(x, 0, g.spec_width());
    lemma_wrap_value(x, 1, g.spec_width());
    lemma_wrap_value(x, 2, g.spec_width());
    lemma_wrap_value(y, 0, g.spec_height());
    lemma_wrap_value(y, 1, g.spec_height());
    lemma_wrap_value(y, 2, g.spec_height());
}

/// On an all-dead grid every 3x3 window term is 0.
proof fn lemma_term_of_dead(g: Grid, x: int, y: int, i: int, j: int)
    requires
        g.wf(),
        g.all_dead(),
        0 <= x < g.spec_width(),
        0 <= y < g.spec_height(),
        0 <= i <= 2,
        0 <= j <= 2,
    ensures
        g.nbr_term(x, y, i, j) == 0,
{
    lemma_wrap_value(x, i, g.spec_width());
    lemma_wrap_value(y, j, g.spec_height());
    lemma_flat_index_bound(
        g.spec_width(),
        g.spec_height(),
        wrap(x, i, g.spec_width()),
        wrap(y, j, g.spec_height()),
    );
}

/// The empty board is stable: on an all-dead grid every neighbor count is 0
/// and no cell is born, so a step leaves every cell dead.
pub proof fn lemma_empty_board_stable(g: Grid)
    requires
        g.wf(),
        g.all_dead(),
    ensures
        forall|x: int, y: int|
            0 <= x < g.spec_width() && 0 <= y < g.spec_height() ==> !g.stepped_at(x, y),
{
    assert forall|x: int, y: int|
        0 <= x < g.spec_width() && 0 <= y < g.spec_height() implies !g.stepped_at(x, y) by {
        lemma_term_of_dead(g, x, y, 0, 0);
        lemma_term_of_dead(g, x, y, 0, 1);
        lemma_term_of_dead(g, x, y, 0, 2);
        lemma_term_of_dead(g, x, y, 1, 0);
        lemma_term_of_dead(g, x, y, 1, 1);
        lemma_term_of_dead(g, x, y, 1, 2);
        lemma_term_of_dead(g, x, y, 2, 0);
        lemma_term_of_dead(g, x, y, 2, 1);
        lemma_term_of_dead(g, x, y, 2, 2);
        lemma_flat_index_bound(g.spec_width(), g.spec_height(), x, y);
    }
}

/// A grid that is dead at every in-range coordinate pair is dead over its
/// whole flat buffer: every index decomposes into such a pair.
pub proof fn lemma_dead_everywhere_is_all_dead(g: Grid)
    requires
        g.wf(),
        forall|x: int, y: int|
            0 <= x < g.spec_width() && 0 <= y < g.spec_height() ==> !g.at(x, y),
    ensures
        g.all_dead(),
{
    let w = g.spec_width();
    let h = g.spec_height();
    assert forall|k: int| 0 <= k < g.cells_view().len() implies !g.cells_view()[k] by {
        let y = k / w;
        let x = k % w;
        lemma_fundamental_div_mod(k, w);
        lemma_mod_division_less_than_divisor(k, w);
        lemma_div_pos_is_pos(k, w);
        lemma_multiply_divide_lt(k, w, h);
        assert(w * y == y * w) by (nonlinear_arith);
        assert(!g.at(x, y));
    }
}

/// The empty board is stable end to end: the grid that a step leaves behind
/// on an all-dead grid is itself all dead.
pub proof fn lemma_step_keeps_empty(pre: Grid, post: Grid)
    requires
        pre.wf(),
        post.wf(),
        pre.all_dead(),
        post.same_dims(&pre),
        forall|x: int, y: int|
            0 <= x < pre.spec_width() && 0 <= y < pre.spec_height() ==> post.at(x, y)
                == pre.stepped_at(x, y),
    ensures
        post.all_dead(),
{
    lemma_empty_board_stable(pre);
    lemma_dead_everywhere_is_all_dead(post);
}

/// A 2x2 block of alive cells on an otherwise dead grid is a still life:
/// every block cell keeps 3 neighbors, no dead cell sees exactly 3, and a
/// step changes nothing. On a width- or height-2 torus the block wraps onto
/// itself and dies, so both dimensions must be at least 3.
pub proof fn lemma_block_still_life(g: Grid, bx: int, by: int)
    requires
        g.wf(),
        3 <= g.spec_width(),
        3 <= g.spec_height(),
        0 <= bx,
        bx + 1 < g.spec_width(),
        0 <= by,
        by + 1 < g.spec_height(),
        forall|a: int, b: int|
            0 <= a < g.spec_width() && 0 <= b < g.spec_height() ==> (g.at(a, b) <==> (bx <= a <= bx
                + 1 && by <= b <= by + 1)),
    ensures
        forall|x: int, y: int|
            0 <= x < g.spec_width() && 0 <= y < g.spec_height() ==> g.stepped_at(x, y) == g.at(
                x,
                y,
            ),
{
    assert forall|x: int, y: int|
        0 <= x < g.spec_width() && 0 <= y < g.spec_height() implies g.stepped_at(x, y) == g.at(
        x,
        y,
    ) by {
        lemma_wrap_value(x, 0, g.spec_width());
        lemma_wrap_value(x, 1, g.spec_width());
        lemma_wrap_value(x, 2, g.spec_width());
        lemma_wrap_value(y, 0, g.spec_height());
        lemma_wrap_value(y, 1, g.spec_height());
        lemma_wrap_value(y, 2, g.spec_height());
    }
}

} // verus!
