//! The cellular-automaton universe: a rectangular grid of cells, stored
//! row-major in one flat buffer, with the classic birth/survival step rule.
//! The border does not wrap around: cells on an edge simply have fewer
//! neighbors.

use vstd::prelude::*;

use crate::cell::Cell;
use crate::rng::random_below;

verus! {

/// Mathematical model of a universe: dimensions and one flag per cell,
/// row-major (`index = row * width + col`).
#[verifier::ext_equal]
pub ghost struct GridView {
    pub width: nat,
    pub height: nat,
    pub cells: Seq<bool>,
}

impl GridView {
    /// The buffer always holds exactly `width * height` cells.
    pub open spec fn wf(self) -> bool {
        self.cells.len() == self.width * self.height
    }

    /// Total number of cells.
    pub open spec fn total(self) -> nat {
        self.width * self.height
    }

    /// Whether the cell at `(row, col)` is alive; everything outside the
    /// grid reads as dead.
    pub open spec fn alive(self, row: int, col: int) -> bool {
        &&& 0 <= row < self.height
        &&& 0 <= col < self.width
        &&& self.cells[row * self.width as int + col]
    }

    /// 1 if the cell at `(row, col)` is alive, else 0.
    pub open spec fn ind(self, row: int, col: int) -> int {
        if self.alive(row, col) {
            1
        } else {
            0
        }
    }

    /// Number of live cells among the eight grid-adjacent neighbors.
    /// Out-of-grid positions count as dead, so border cells see fewer
    /// neighbors (no wraparound).
    pub open spec fn live_neighbors(self, row: int, col: int) -> int {
        self.ind(row - 1, col - 1) + self.ind(row - 1, col) + self.ind(row - 1, col + 1)
            + self.ind(row, col - 1) + self.ind(row, col + 1) + self.ind(row + 1, col - 1)
            + self.ind(row + 1, col) + self.ind(row + 1, col + 1)
    }

    /// The step rule: a live cell survives with exactly 2 or 3 live
    /// neighbors; a dead cell is born with exactly 3; all else is dead.
    pub open spec fn next_alive(self, row: int, col: int) -> bool {
        let n = self.live_neighbors(row, col);
        if self.alive(row, col) {
            n == 2 || n == 3
        } else {
            n == 3
        }
    }

    /// The grid after one synchronous application of the step rule.
    pub open spec fn step(self) -> GridView {
        GridView {
            width: self.width,
            height: self.height,
            cells: Seq::new(
                self.cells.len(),
                |i: int| self.next_alive(i / self.width as int, i % self.width as int),
            ),
        }
    }

    /// The grid with every cell dead.
    pub open spec fn cleared(self) -> GridView {
        GridView {
            width: self.width,
            height: self.height,
            cells: Seq::new(self.cells.len(), |i: int| false),
        }
    }

    /// The grid with the cell at `(row, col)` set to `b`; out-of-bounds
    /// writes change nothing.
    pub open spec fn written(self, row: int, col: int, b: bool) -> GridView {
        if 0 <= row < self.height && 0 <= col < self.width {
            GridView {
                width: self.width,
                height: self.height,
                cells: self.cells.update(row * self.width as int + col, b),
            }
        } else {
            self
        }
    }

    /// The grid with the cell at `(row, col)` flipped; out-of-bounds
    /// toggles change nothing.
    pub open spec fn toggled(self, row: int, col: int) -> GridView {
        self.written(row, col, !self.alive(row, col))
    }
}

/// The grid after setting, in order, every cell `(start_row + dr,
/// start_col + dc)` alive for `(dr, dc)` in `offs`; offsets landing
/// outside the grid are skipped.
pub open spec fn with_pattern(
    g: GridView,
    start_row: int,
    start_col: int,
    offs: Seq<(usize, usize)>,
) -> GridView
    decreases offs.len(),
{
    if offs.len() == 0 {
        g
    } else {
        with_pattern(g, start_row, start_col, offs.drop_last()).written(
            start_row + offs.last().0,
            start_col + offs.last().1,
            true,
        )
    }
}

/// Relative offsets of the glider seed shape.
pub open spec fn glider_offsets() -> Seq<(usize, usize)> {
    seq![(0, 1), (1, 2), (2, 0), (2, 1), (2, 2)]
}

/// Relative offsets of the blinker seed shape (one horizontal row of 3).
pub open spec fn blinker_offsets() -> Seq<(usize, usize)> {
    seq![(0, 0), (0, 1), (0, 2)]
}

/// Relative offsets of the toad seed shape.
pub open spec fn toad_offsets() -> Seq<(usize, usize)> {
    seq![(0, 1), (0, 2), (0, 3), (1, 0), (1, 1), (1, 2)]
}

/// Relative offsets of the beacon seed shape.
pub open spec fn beacon_offsets() -> Seq<(usize, usize)> {
    seq![(0, 0), (0, 1), (1, 0), (1, 1), (2, 2), (2, 3), (3, 2), (3, 3)]
}

/// Relative offsets of the pulsar seed shape.
pub open spec fn pulsar_offsets() -> Seq<(usize, usize)> {
    seq![
        (2, 4), (2, 5), (2, 6), (2, 10), (2, 11), (2, 12),
        (4, 2), (4, 7), (4, 9), (4, 14),
        (5, 2), (5, 7), (5, 9), (5, 14),
        (6, 2), (6, 7), (6, 9), (6, 14),
        (7, 4), (7, 5), (7, 6), (7, 10), (7, 11), (7, 12),
        (9, 4), (9, 5), (9, 6), (9, 10), (9, 11), (9, 12),
        (10, 2), (10, 7), (10, 9), (10, 14),
        (11, 2), (11, 7), (11, 9), (11, 14),
        (12, 2), (12, 7), (12, 9), (12, 14),
        (14, 4), (14, 5), (14, 6), (14, 10), (14, 11), (14, 12),
    ]
}

/// Number of `true` entries in a cell buffer.
pub open spec fn count_alive(s: Seq<bool>) -> nat
    decreases s.len(),
{
    if s.len() == 0 {
        0
    } else {
        count_alive(s.drop_last()) + if s.last() {
            1nat
        } else {
            0nat
        }
    }
}

/// Row-major indexing stays inside the buffer.
pub proof fn lemma_index_bound(row: int, col: int, width: int, height: int)
    requires
        0 <= row < height,
        0 <= col < width,
    ensures
        0 <= row * width + col < height * width,
        0 <= row * width + col < width * height,
{
    assert(0 <= row * width + col < height * width && height * width == width * height)
        by (nonlinear_arith)
        requires
            0 <= row < height,
            0 <= col < width,
    ;
}

/// Row-major indexing is injective on in-bounds coordinates.
pub proof fn lemma_index_decompose(row: int, col: int, width: int)
    requires
        0 <= row,
        0 <= col < width,
    ensures
        (row * width + col) / width == row,
        (row * width + col) % width == col,
{
    assert((row * width + col) / width == row && (row * width + col) % width == col)
        by (nonlinear_arith)
        requires
            0 <= row,
            0 <= col < width,
    ;
}

/// Row-major indexing is injective: distinct in-bounds coordinates get
/// distinct flat indices.
pub proof fn lemma_index_injective(r1: int, c1: int, r2: int, c2: int, width: int)
    requires
        0 <= r1,
        0 <= c1 < width,
        0 <= r2,
        0 <= c2 < width,
        r1 * width + c1 == r2 * width + c2,
    ensures
        r1 == r2,
        c1 == c2,
{
    lemma_index_decompose(r1, c1, width);
    lemma_index_decompose(r2, c2, width);
}

/// How the live count changes when one entry of the buffer is replaced.
pub proof fn lemma_count_update(s: Seq<bool>, i: int, b: bool)
    requires
        0 <= i < s.len(),
    ensures
        count_alive(s.update(i, b)) == count_alive(s) - (if s[i] {
            1int
        } else {
            0int
        }) + (if b {
            1int
        } else {
            0int
        }),
    decreases s.len(),
{
    if i == s.len() - 1 {
        assert(s.update(i, b).drop_last() =~= s.drop_last());
    } else {
        assert(s.update(i, b).drop_last() =~= s.drop_last().update(i, b));
        lemma_count_update(s.drop_last(), i, b);
    }
}

/// The guaranteed minimum population after a random seeding of a grid
/// with more than 10 cells: one fiftieth of the grid, clamped to lie
/// between 3 and 10.
pub open spec fn min_seed_count(total: nat) -> nat {
    if total / 50 < 3 {
        3
    } else if total / 50 > 10 {
        10
    } else {
        total / 50
    }
}

/// The live count of a prefix never exceeds the live count of the whole
/// buffer.
pub proof fn lemma_count_take_le(s: Seq<bool>, j: int)
    requires
        0 <= j <= s.len(),
    ensures
        count_alive(s.take(j)) <= count_alive(s),
    decreases s.len(),
{
    if j == s.len() {
        assert(s.take(j) =~= s);
    } else {
        assert(s.take(j) =~= s.drop_last().take(j));
        lemma_count_take_le(s.drop_last(), j);
    }
}

/// A buffer with every entry live counts its full length.
pub proof fn lemma_count_all_true(s: Seq<bool>)
    requires
        forall|i: int| 0 <= i < s.len() ==> s[i],
    ensures
        count_alive(s) == s.len(),
    decreases s.len(),
{
    if s.len() > 0 {
        lemma_count_all_true(s.drop_last());
    }
}

/// A buffer with no live entry counts zero.
pub proof fn lemma_count_all_false(s: Seq<bool>)
    requires
        forall|i: int| 0 <= i < s.len() ==> !s[i],
    ensures
        count_alive(s) == 0,
    decreases s.len(),
{
    if s.len() > 0 {
        lemma_count_all_false(s.drop_last());
    }
}

/// What a single bounded write does to each cell: the written position
/// (if any) takes the new value, everything else is untouched.
pub proof fn lemma_written_alive(g: GridView, row: int, col: int, b: bool, r: int, c: int)
    requires
        g.wf(),
    ensures
        g.written(row, col, b).wf(),
        g.written(row, col, b).width == g.width,
        g.written(row, col, b).height == g.height,
        g.written(row, col, b).alive(r, c) == (if r == row && c == col && 0 <= r < g.height && 0
            <= c < g.width {
            b
        } else {
            g.alive(r, c)
        }),
{
    if 0 <= row < g.height && 0 <= col < g.width {
        lemma_index_bound(row, col, g.width as int, g.height as int);
        if 0 <= r < g.height && 0 <= c < g.width {
            lemma_index_bound(r, c, g.width as int, g.height as int);
            if r * g.width as int + c == row * g.width as int + col {
                lemma_index_injective(r, c, row, col, g.width as int);
            }
        }
    }
}

/// Writes only grow the live count when they write `true`.
pub proof fn lemma_written_count(g: GridView, row: int, col: int)
    requires
        g.wf(),
    ensures
        count_alive(g.written(row, col, true).cells) >= count_alive(g.cells),
{
    if 0 <= row < g.height && 0 <= col < g.width {
        lemma_index_bound(row, col, g.width as int, g.height as int);
        lemma_count_update(g.cells, row * g.width as int + col, true);
    }
}

/// What seeding a pattern does to each cell: a cell is alive afterwards
/// exactly when it was alive before or it lies on one of the pattern's
/// in-bounds offsets.
pub proof fn lemma_with_pattern_alive_at(
    g: GridView,
    start_row: int,
    start_col: int,
    offs: Seq<(usize, usize)>,
    r: int,
    c: int,
)
    requires
        g.wf(),
    ensures
        with_pattern(g, start_row, start_col, offs).wf(),
        with_pattern(g, start_row, start_col, offs).width == g.width,
        with_pattern(g, start_row, start_col, offs).height == g.height,
        with_pattern(g, start_row, start_col, offs).alive(r, c) == (g.alive(r, c) || (0 <= r
            < g.height && 0 <= c < g.width && exists|k: int|
            0 <= k < offs.len() && r == start_row + offs[k].0 && c == start_col + offs[k].1)),
    decreases offs.len(),
{
    if offs.len() == 0 {
    } else {
        let prev = with_pattern(g, start_row, start_col, offs.drop_last());
        lemma_with_pattern_alive_at(g, start_row, start_col, offs.drop_last(), r, c);
        lemma_written_alive(
            prev,
            start_row + offs.last().0,
            start_col + offs.last().1,
            true,
            r,
            c,
        );
        let full = with_pattern(g, start_row, start_col, offs);
        let tail = offs.drop_last();
        if full.alive(r, c) {
            if !g.alive(r, c) {
                if prev.alive(r, c) {
                    let k = choose|k: int|
                        0 <= k < tail.len() && r == start_row + tail[k].0 && c == start_col
                            + tail[k].1;
                    assert(tail[k] == offs[k]);
                    assert(0 <= k < offs.len() && r == start_row + offs[k].0 && c == start_col
                        + offs[k].1);
                } else {
                    let k = offs.len() - 1;
                    assert(offs.last() == offs[k]);
                    assert(0 <= k < offs.len() && r == start_row + offs[k].0 && c == start_col
                        + offs[k].1);
                }
            }
        } else {
            assert(!prev.alive(r, c));
            assert(!g.alive(r, c));
            if 0 <= r < g.height && 0 <= c < g.width {
                if exists|k: int|
                    0 <= k < offs.len() && r == start_row + offs[k].0 && c == start_col
                        + offs[k].1 {
                    let k = choose|k: int|
                        0 <= k < offs.len() && r == start_row + offs[k].0 && c == start_col
                            + offs[k].1;
                    if k < offs.len() - 1 {
                        assert(tail[k] == offs[k]);
                        assert(prev.alive(r, c));
                    } else {
                        assert(offs.last() == offs[k]);
                        assert(full.alive(r, c));
                    }
                    assert(false);
                }
            }
        }
    }
}

/// Seeding a pattern preserves dimensions and never kills a live cell;
/// stated for every cell at once.
pub proof fn lemma_with_pattern_alive(
    g: GridView,
    start_row: int,
    start_col: int,
    offs: Seq<(usize, usize)>,
)
    requires
        g.wf(),
    ensures
        with_pattern(g, start_row, start_col, offs).wf(),
        with_pattern(g, start_row, start_col, offs).width == g.width,
        with_pattern(g, start_row, start_col, offs).height == g.height,
        forall|r: int, c: int|
            #[trigger] with_pattern(g, start_row, start_col, offs).alive(r, c) == (g.alive(r, c)
                || (0 <= r < g.height && 0 <= c < g.width && exists|k: int|
                0 <= k < offs.len() && r == start_row + offs[k].0 && c == start_col
                    + offs[k].1)),
{
    lemma_with_pattern_alive_at(g, start_row, start_col, offs, 0, 0);
    assert forall|r: int, c: int|
        #[trigger] with_pattern(g, start_row, start_col, offs).alive(r, c) == (g.alive(r, c) || (
        0 <= r < g.height && 0 <= c < g.width && exists|k: int|
            0 <= k < offs.len() && r == start_row + offs[k].0 && c == start_col
                + offs[k].1)) by {
        lemma_with_pattern_alive_at(g, start_row, start_col, offs, r, c);
    }
}

/// Seeding a pattern never lowers the live count.
pub proof fn lemma_with_pattern_count(
    g: GridView,
    start_row: int,
    start_col: int,
    offs: Seq<(usize, usize)>,
)
    requires
        g.wf(),
    ensures
        count_alive(with_pattern(g, start_row, start_col, offs).cells) >= count_alive(g.cells),
    decreases offs.len(),
{
    if offs.len() > 0 {
        let prev = with_pattern(g, start_row, start_col, offs.drop_last());
        lemma_with_pattern_count(g, start_row, start_col, offs.drop_last());
        lemma_with_pattern_alive_at(g, start_row, start_col, offs.drop_last(), 0, 0);
        lemma_written_count(prev, start_row + offs.last().0, start_col + offs.last().1);
    }
}

/// Clearing kills all activity, and a cleared grid steps to itself: one
/// generation after a clear the live count is still zero. So the count
/// before a clear equals the count one step after it only if the grid
/// held no live cell to begin with.
pub proof fn lemma_clear_then_tick(g: GridView)
    requires
        g.wf(),
    ensures
        count_alive(g.cleared().cells) == 0,
        count_alive(g.cleared().step().cells) == 0,
        (count_alive(g.cells) == count_alive(g.cleared().step().cells)) <==> count_alive(g.cells)
            == 0,
{
    lemma_count_all_false(g.cleared().cells);
    let cs = g.cleared().step();
    assert forall|i: int| 0 <= i < cs.cells.len() implies !cs.cells[i] by {
        let w = g.width as int;
        lemma_cleared_next_dead(g, i / w, i % w);
    }
    lemma_count_all_false(cs.cells);
}

/// An alive cell with zero or one live neighbor dies in the next
/// generation, wherever it sits on the grid: the step rule keeps a
/// cell only with two or three live neighbors.
pub proof fn lemma_underpopulation(g: GridView, row: int, col: int)
    requires
        g.wf(),
        g.live_neighbors(row, col) <= 1,
    ensures
        !g.step().alive(row, col),
{
    if 0 <= row < g.height && 0 <= col < g.width {
        lemma_index_bound(row, col, g.width as int, g.height as int);
        lemma_index_decompose(row, col, g.width as int);
    }
}

/// Every cell of a cleared grid is dead.
proof fn lemma_cleared_dead(g: GridView, r: int, c: int)
    requires
        g.wf(),
    ensures
        !g.cleared().alive(r, c),
{
    if 0 <= r < g.height && 0 <= c < g.width {
        lemma_index_bound(r, c, g.width as int, g.height as int);
    }
}

/// No cell of a cleared grid comes alive in the next generation.
proof fn lemma_cleared_next_dead(g: GridView, r: int, c: int)
    requires
        g.wf(),
    ensures
        !g.cleared().next_alive(r, c),
{
    lemma_cleared_dead(g, r, c);
    lemma_cleared_dead(g, r - 1, c - 1);
    lemma_cleared_dead(g, r - 1, c);
    lemma_cleared_dead(g, r - 1, c + 1);
    lemma_cleared_dead(g, r, c - 1);
    lemma_cleared_dead(g, r, c + 1);
    lemma_cleared_dead(g, r + 1, c - 1);
    lemma_cleared_dead(g, r + 1, c);
    lemma_cleared_dead(g, r + 1, c + 1);
}

/// The universe: owns the live cell buffer and a same-sized scratch
/// buffer, so a step never reallocates (the two buffers are swapped).
#[derive(Clone, Debug)]
pub struct Universe {
    width: usize,
    height: usize,
    cells: Vec<Cell>,
    scratch: Vec<Cell>,
}

impl View for Universe {
    type V = GridView;

    closed spec fn view(&self) -> GridView {
        GridView {
            width: self.width as nat,
            height: self.height as nat,
            cells: Seq::new(self.cells@.len(), |i: int| self.cells@[i].spec_alive()),
        }
    }
}

impl Universe {
    /// Internal consistency: the buffer matches the dimensions and the
    /// scratch buffer matches the live one.
    pub closed spec fn inv(&self) -> bool {
        &&& self.width * self.height <= usize::MAX
        &&& self.cells@.len() == self.width * self.height
        &&& self.scratch@.len() == self.cells@.len()
    }

    /// A consistent universe has a well-formed view.
    pub proof fn lemma_inv_wf(&self)
        requires
            self.inv(),
        ensures
            self@.wf(),
            self@.total() <= usize::MAX,
    {
    }

    /// Allocates a `width * height` grid with every cell dead.
    pub fn new(width: usize, height: usize) -> (r: Self)
        requires
            width * height <= usize::MAX,
        ensures
            r.inv(),
            r@.width == width,
            r@.height == height,
            r@ == (GridView {
                width: width as nat,
                height: height as nat,
                cells: Seq::new((width * height) as nat, |i: int| false),
            }),
    {
        proof {
            assert(width * height >= 0) by (nonlinear_arith);
        }
        let n = width * height;
        let mut cells: Vec<Cell> = Vec::new();
        let mut scratch: Vec<Cell> = Vec::new();
        let mut i: usize = 0;
        while i < n
            invariant
                i <= n,
                cells@.len() == i,
                scratch@.len() == i,
                forall|j: int| 0 <= j < i ==> !cells@[j].spec_alive(),
            decreases n - i,
        {
            cells.push(Cell::dead());
            scratch.push(Cell::dead());
            i = i + 1;
        }
        let r = Self { width, height, cells, scratch };
        proof {
            assert(r@.cells =~= Seq::new((width * height) as nat, |i: int| false));
        }
        r
    }

    pub fn width(&self) -> (r: usize)
        ensures
            r == self@.width,
    {
        self.width
    }

    pub fn height(&self) -> (r: usize)
        ensures
            r == self@.height,
    {
        self.height
    }

    /// Read-only access to the cell buffer, row-major.
    pub fn cells(&self) -> (r: &[Cell])
        ensures
            r@.len() == self@.cells.len(),
            forall|i: int| 0 <= i < r@.len() ==> r@[i].spec_alive() == self@.cells[i],
    {
        self.cells.as_slice()
    }

    /// Flat index of an in-bounds coordinate pair.
    fn get_index(&self, row: usize, col: usize) -> (idx: usize)
        requires
            self.inv(),
            row < self@.height,
            col < self@.width,
        ensures
            idx == row * self@.width + col,
            idx < self@.cells.len(),
    {
        proof {
            lemma_index_bound(row as int, col as int, self.width as int, self.height as int);
        }
        row * self.width + col
    }

    /// The cell at `(row, col)`; any out-of-bounds read returns a dead
    /// cell rather than failing.
    pub fn get_cell(&self, row: usize, col: usize) -> (r: Cell)
        requires
            self.inv(),
        ensures
            r.spec_alive() == self@.alive(row as int, col as int),
    {
        if row < self.height && col < self.width {
            let idx = self.get_index(row, col);
            self.cells[idx]
        } else {
            Cell::dead()
        }
    }

    /// Writes the cell at `(row, col)`; any out-of-bounds write is a
    /// no-op rather than a failure.
    pub fn set_cell(&mut self, row: usize, col: usize, cell: Cell)
        requires
            old(self).inv(),
        ensures
            final(self).inv(),
            final(self)@ == old(self)@.written(row as int, col as int, cell.spec_alive()),
    {
        if row < self.height && col < self.width {
            let idx = self.get_index(row, col);
            self.cells.set(idx, cell);
            proof {
                assert(self@.cells =~= old(self)@.cells.update(
                    row as int * old(self)@.width as int + col as int,
                    cell.spec_alive(),
                ));
                assert(self@ =~= old(self)@.written(row as int, col as int, cell.spec_alive()));
            }
        } else {
            proof {
                assert(self@ =~= old(self)@);
            }
        }
    }

    /// Flips the cell at `(row, col)`; out-of-bounds toggles are no-ops.
    pub fn toggle_cell(&mut self, row: usize, col: usize)
        requires
            old(self).inv(),
        ensures
            final(self).inv(),
            final(self)@ == old(self)@.toggled(row as int, col as int),
    {
        if row < self.height && col < self.width {
            let idx = self.get_index(row, col);
            let mut cell = self.cells[idx];
            cell.toggle();
            self.cells.set(idx, cell);
            proof {
                assert(self@.cells =~= old(self)@.cells.update(
                    row as int * old(self)@.width as int + col as int,
                    !old(self)@.alive(row as int, col as int),
                ));
                assert(self@ =~= old(self)@.toggled(row as int, col as int));
            }
        } else {
            proof {
                assert(self@ =~= old(self)@);
            }
        }
    }

    /// Sets every cell dead.
    pub fn clear(&mut self)
        requires
            old(self).inv(),
        ensures
            final(self).inv(),
            final(self)@ == old(self)@.cleared(),
    {
        let n = self.cells.len();
        let mut i: usize = 0;
        while i < n
            invariant
                i <= n,
                n == self.cells@.len(),
                self.inv(),
                self.width == old(self).width,
                self.height == old(self).height,
                forall|j: int| 0 <= j < i ==> !self.cells@[j].spec_alive(),
            decreases n - i,
        {
            self.cells.set(i, Cell::dead());
            i = i + 1;
        }
        proof {
            assert(self@.cells =~= old(self)@.cleared().cells);
            assert(self@ =~= old(self)@.cleared());
        }
    }

    /// Number of live cells in the grid.
    pub fn count_living_cells(&self) -> (r: usize)
        requires
            self.inv(),
        ensures
            r == count_alive(self@.cells),
    {
        let n = self.cells.len();
        let mut count: usize = 0;
        let mut i: usize = 0;
        while i < n
            invariant
                i <= n,
                n == self.cells@.len(),
                count == count_alive(self@.cells.take(i as int)),
                count <= i,
            decreases n - i,
        {
            proof {
                assert(self@.cells.take(i + 1).drop_last() =~= self@.cells.take(i as int));
                assert(self@.cells.take(i + 1).last() == self@.cells[i as int]);
            }
            if self.cells[i].is_alive() {
                count = count + 1;
            }
            i = i + 1;
        }
        proof {
            assert(self@.cells.take(n as int) =~= self@.cells);
        }
        count
    }

    /// Whether the in-bounds cell at `(row, col)` is alive.
    fn cell_at(&self, row: usize, col: usize) -> (r: bool)
        requires
            self.inv(),
            row < self@.height,
            col < self@.width,
        ensures
            r == self@.alive(row as int, col as int),
    {
        let idx = self.get_index(row, col);
        self.cells[idx].is_alive()
    }

    /// Counts the live cells among the eight neighbors of `(row, col)`,
    /// using direct bounds checks on each side: neighbors beyond an edge
    /// are simply skipped, never wrapped around.
    fn live_neighbor_count(&self, row: usize, col: usize) -> (n: u8)
        requires
            self.inv(),
            row < self@.height,
            col < self@.width,
        ensures
            n as int == self@.live_neighbors(row as int, col as int),
    {
        let mut n: u8 = 0;
        if row > 0 {
            if col > 0 && self.cell_at(row - 1, col - 1) {
                n = n + 1;
            }
            if self.cell_at(row - 1, col) {
                n = n + 1;
            }
            if col + 1 < self.width && self.cell_at(row - 1, col + 1) {
                n = n + 1;
            }
        }
        if col > 0 && self.cell_at(row, col - 1) {
            n = n + 1;
        }
        if col + 1 < self.width && self.cell_at(row, col + 1) {
            n = n + 1;
        }
        if row + 1 < self.height {
            if col > 0 && self.cell_at(row + 1, col - 1) {
                n = n + 1;
            }
            if self.cell_at(row + 1, col) {
                n = n + 1;
            }
            if col + 1 < self.width && self.cell_at(row + 1, col + 1) {
                n = n + 1;
            }
        }
        n
    }

    /// Advances the whole grid by one generation, synchronously: every
    /// cell's next state is computed from the previous generation before
    /// any cell is replaced. The next generation is built in the scratch
    /// buffer and the two buffers are swapped, so no step reallocates.
    pub fn tick(&mut self)
        requires
            old(self).inv(),
        ensures
            final(self).inv(),
            final(self)@ == old(self)@.step(),
    {
        let ghost g = self@;
        let height = self.height;
        let width = self.width;
        let mut row: usize = 0;
        while row < height
            invariant
                self.inv(),
                g == self@,
                width == self.width,
                height == self.height,
                row <= height,
                row * width <= g.cells.len(),
                self.scratch@.len() == g.cells.len(),
                forall|k: int|
                    0 <= k < row * width ==> self.scratch@[k].spec_alive() == g.next_alive(
                        k / width as int,
                        k % width as int,
                    ),
            decreases height - row,
        {
            let mut col: usize = 0;
            while col < width
                invariant
                    self.inv(),
                    g == self@,
                    width == self.width,
                    height == self.height,
                    row < height,
                    col <= width,
                    row * width + col <= g.cells.len(),
                    self.scratch@.len() == g.cells.len(),
                    forall|k: int|
                        0 <= k < row * width + col ==> self.scratch@[k].spec_alive()
                            == g.next_alive(k / width as int, k % width as int),
                decreases width - col,
            {
                let idx = self.get_index(row, col);
                let is_alive = self.cells[idx].is_alive();
                let n = self.live_neighbor_count(row, col);
                let next_alive = if is_alive {
                    n == 2 || n == 3
                } else {
                    n == 3
                };
                self.scratch.set(idx, Cell::from_bool(next_alive));
                proof {
                    lemma_index_decompose(row as int, col as int, width as int);
                    lemma_index_bound(row as int, col as int, width as int, height as int);
                    assert(self.scratch@[idx as int].spec_alive() == g.next_alive(
                        idx as int / width as int,
                        idx as int % width as int,
                    ));
                }
                col = col + 1;
            }
            proof {
                assert((row + 1) * width == row * width + width) by (nonlinear_arith);
                assert((row + 1) * width <= width * height) by (nonlinear_arith)
                    requires
                        row + 1 <= height,
                ;
            }
            row = row + 1;
        }
        core::mem::swap(&mut self.cells, &mut self.scratch);
        proof {
            assert(height * width == g.cells.len()) by (nonlinear_arith)
                requires
                    g.cells.len() == width * height,
            ;
            assert(self@.cells =~= g.step().cells);
            assert(self@ =~= g.step());
        }
    }

    /// Sets the cell at `(start_row + dr, start_col + dc)` alive,
    /// skipping the write when that position falls outside the grid.
    fn set_offset_alive(&mut self, start_row: usize, start_col: usize, dr: usize, dc: usize)
        requires
            old(self).inv(),
        ensures
            final(self).inv(),
            final(self)@ == old(self)@.written(
                start_row + dr,
                start_col + dc,
                true,
            ),
    {
        if dr < self.height && start_row < self.height - dr && dc < self.width && start_col
            < self.width - dc {
            let row = start_row + dr;
            let col = start_col + dc;
            self.set_cell(row, col, Cell::alive());
        }
    }

    /// Sets every listed offset of a seed shape alive, anchored at
    /// `(start_row, start_col)`; offsets landing outside the grid are
    /// silently skipped.
    fn place_pattern(&mut self, start_row: usize, start_col: usize, offs: &[(usize, usize)])
        requires
            old(self).inv(),
        ensures
            final(self).inv(),
            final(self)@.width == old(self)@.width,
            final(self)@.height == old(self)@.height,
            final(self)@ == with_pattern(
                old(self)@,
                start_row as int,
                start_col as int,
                offs@,
            ),
    {
        let ghost g = old(self)@;
        let n = offs.len();
        let mut i: usize = 0;
        while i < n
            invariant
                i <= n,
                n == offs@.len(),
                self.inv(),
                self@.width == g.width,
                self@.height == g.height,
                self@ == with_pattern(g, start_row as int, start_col as int, offs@.take(i as int)),
            decreases n - i,
        {
            let (dr, dc) = offs[i];
            self.set_offset_alive(start_row, start_col, dr, dc);
            proof {
                assert(offs@.take(i + 1).drop_last() =~= offs@.take(i as int));
                assert(offs@.take(i + 1).last() == offs@[i as int]);
            }
            i = i + 1;
        }
        proof {
            assert(offs@.take(n as int) =~= offs@);
        }
    }

    /// Seeds a glider anchored at `(start_row, start_col)`.
    pub fn add_glider(&mut self, start_row: usize, start_col: usize)
        requires
            old(self).inv(),
        ensures
            final(self).inv(),
            final(self)@.width == old(self)@.width,
            final(self)@.height == old(self)@.height,
            final(self)@ == with_pattern(
                old(self)@,
                start_row as int,
                start_col as int,
                glider_offsets(),
            ),
    {
        let mut offs: Vec<(usize, usize)> = Vec::new();
        offs.push((0, 1));
        offs.push((1, 2));
        offs.push((2, 0));
        offs.push((2, 1));
        offs.push((2, 2));
        proof {
            assert(offs@ =~= glider_offsets());
        }
        self.place_pattern(start_row, start_col, offs.as_slice());
    }

    /// Seeds a blinker (three cells in a row) anchored at
    /// `(start_row, start_col)`.
    pub fn add_blinker(&mut self, start_row: usize, start_col: usize)
        requires
            old(self).inv(),
        ensures
            final(self).inv(),
            final(self)@.width == old(self)@.width,
            final(self)@.height == old(self)@.height,
            final(self)@ == with_pattern(
                old(self)@,
                start_row as int,
                start_col as int,
                blinker_offsets(),
            ),
    {
        let mut offs: Vec<(usize, usize)> = Vec::new();
        offs.push((0, 0));
        offs.push((0, 1));
        offs.push((0, 2));
        proof {
            assert(offs@ =~= blinker_offsets());
        }
        self.place_pattern(start_row, start_col, offs.as_slice());
    }

    /// Seeds a toad anchored at `(start_row, start_col)`.
    pub fn add_toad(&mut self, start_row: usize, start_col: usize)
        requires
            old(self).inv(),
        ensures
            final(self).inv(),
            final(self)@.width == old(self)@.width,
            final(self)@.height == old(self)@.height,
            final(self)@ == with_pattern(
                old(self)@,
                start_row as int,
                start_col as int,
                toad_offsets(),
            ),
    {
        let mut offs: Vec<(usize, usize)> = Vec::new();
        offs.push((0, 1));
        offs.push((0, 2));
        offs.push((0, 3));
        offs.push((1, 0));
        offs.push((1, 1));
        offs.push((1, 2));
        proof {
            assert(offs@ =~= toad_offsets());
        }
        self.place_pattern(start_row, start_col, offs.as_slice());
    }

    /// Seeds a beacon anchored at `(start_row, start_col)`.
    pub fn add_beacon(&mut self, start_row: usize, start_col: usize)
        requires
            old(self).inv(),
        ensures
            final(self).inv(),
            final(self)@.width == old(self)@.width,
            final(self)@.height == old(self)@.height,
            final(self)@ == with_pattern(
                old(self)@,
                start_row as int,
                start_col as int,
                beacon_offsets(),
            ),
    {
        let mut offs: Vec<(usize, usize)> = Vec::new();
        offs.push((0, 0));
        offs.push((0, 1));
        offs.push((1, 0));
        offs.push((1, 1));
        offs.push((2, 2));
        offs.push((2, 3));
        offs.push((3, 2));
        offs.push((3, 3));
        proof {
            assert(offs@ =~= beacon_offsets());
        }
        self.place_pattern(start_row, start_col, offs.as_slice());
    }

    /// Seeds a pulsar anchored at `(start_row, start_col)`.
    pub fn add_pulsar(&mut self, start_row: usize, start_col: usize)
        requires
            old(self).inv(),
        ensures
            final(self).inv(),
            final(self)@.width == old(self)@.width,
            final(self)@.height == old(self)@.height,
            final(self)@ == with_pattern(
                old(self)@,
                start_row as int,
                start_col as int,
                pulsar_offsets(),
            ),
    {
        let mut offs: Vec<(usize, usize)> = Vec::new();
        offs.push((2, 4));
        offs.push((2, 5));
        offs.push((2, 6));
        offs.push((2, 10));
        offs.push((2, 11));
        offs.push((2, 12));
        offs.push((4, 2));
        offs.push((4, 7));
        offs.push((4, 9));
        offs.push((4, 14));
        offs.push((5, 2));
        offs.push((5, 7));
        offs.push((5, 9));
        offs.push((5, 14));
        offs.push((6, 2));
        offs.push((6, 7));
        offs.push((6, 9));
        offs.push((6, 14));
        offs.push((7, 4));
        offs.push((7, 5));
        offs.push((7, 6));
        offs.push((7, 10));
        offs.push((7, 11));
        offs.push((7, 12));
        offs.push((9, 4));
        offs.push((9, 5));
        offs.push((9, 6));
        offs.push((9, 10));
        offs.push((9, 11));
        offs.push((9, 12));
        offs.push((10, 2));
        offs.push((10, 7));
        offs.push((10, 9));
        offs.push((10, 14));
        offs.push((11, 2));
        offs.push((11, 7));
        offs.push((11, 9));
        offs.push((11, 14));
        offs.push((12, 2));
        offs.push((12, 7));
        offs.push((12, 9));
        offs.push((12, 14));
        offs.push((14, 4));
        offs.push((14, 5));
        offs.push((14, 6));
        offs.push((14, 10));
        offs.push((14, 11));
        offs.push((14, 12));
        proof {
            assert(offs@ =~= pulsar_offsets());
        }
        self.place_pattern(start_row, start_col, offs.as_slice());
    }

    /// Sets every listed `(row, col)` position alive; out-of-bounds
    /// positions are silently skipped.
    pub fn set_cells(&mut self, cells: &[(usize, usize)])
        requires
            old(self).inv(),
        ensures
            final(self).inv(),
            final(self)@.width == old(self)@.width,
            final(self)@.height == old(self)@.height,
            final(self)@ == with_pattern(old(self)@, 0, 0, cells@),
    {
        self.place_pattern(0, 0, cells);
    }

    /// Reseeds the whole grid at random: each cell independently comes
    /// alive with probability `density` in thousandths (so 0 means no
    /// cell, 1000 or more means every cell). If fewer than 3 cells come
    /// up alive on a grid of more than 10 cells, the first dead cells
    /// are forced alive until the population reaches the guaranteed
    /// floor of `min_seed_count`.
    pub fn randomize(&mut self, density: u32)
        requires
            old(self).inv(),
        ensures
            final(self).inv(),
            final(self)@.width == old(self)@.width,
            final(self)@.height == old(self)@.height,
            old(self)@.total() > 10 ==> count_alive(final(self)@.cells) >= 3,
            density == 0 && old(self)@.total() > 10 ==> count_alive(final(self)@.cells)
                == min_seed_count(old(self)@.total()),
            density == 0 && old(self)@.total() <= 10 ==> count_alive(final(self)@.cells) == 0,
            density >= 1000 ==> count_alive(final(self)@.cells) == old(self)@.total(),
    {
        let n = self.cells.len();
        let mut alive_count: usize = 0;
        let mut i: usize = 0;
        while i < n
            invariant
                i <= n,
                n == self.cells@.len(),
                self.inv(),
                self.width == old(self).width,
                self.height == old(self).height,
                alive_count <= i,
                alive_count == count_alive(self@.cells.take(i as int)),
                density == 0 ==> forall|j: int| 0 <= j < i ==> !self@.cells[j],
                density >= 1000 ==> forall|j: int| 0 <= j < i ==> self@.cells[j],
            decreases n - i,
        {
            let x = random_below(1000);
            let alive = x < density;
            let ghost before = self@.cells;
            self.cells.set(i, Cell::from_bool(alive));
            proof {
                assert(forall|j: int| 0 <= j < i ==> self@.cells[j] == before[j]);
                assert(self@.cells[i as int] == alive);
                assert(self@.cells.take(i as int) =~= before.take(i as int));
                assert(self@.cells.take(i + 1).drop_last() =~= self@.cells.take(i as int));
                assert(self@.cells.take(i + 1).last() == alive);
            }
            if alive {
                alive_count = alive_count + 1;
            }
            i = i + 1;
            proof {
                if density == 0 {
                    assert forall|j: int| 0 <= j < i implies !self@.cells[j] by {
                        if j < i - 1 {
                            assert(self@.cells[j] == before[j]);
                            assert(!before[j]);
                        } else {
                            assert(self@.cells[j] == alive);
                        }
                    }
                }
                if density >= 1000 {
                    assert forall|j: int| 0 <= j < i implies self@.cells[j] by {
                        if j < i - 1 {
                            assert(self@.cells[j] == before[j]);
                            assert(before[j]);
                        } else {
                            assert(self@.cells[j] == alive);
                        }
                    }
                }
            }
        }
        proof {
            assert(self@.cells.take(n as int) =~= self@.cells);
            if density == 0 {
                lemma_count_all_false(self@.cells);
            }
            if density >= 1000 {
                lemma_count_all_true(self@.cells);
            }
        }
        if alive_count < 3 && n > 10 {
            let mut min_cells = n / 50;
            if min_cells < 3 {
                min_cells = 3;
            }
            if min_cells > 10 {
                min_cells = 10;
            }
            proof {
                assert(min_cells == min_seed_count(n as nat));
            }
            let mut count = alive_count;
            let mut j: usize = 0;
            while count < min_cells
                invariant
                    j <= n,
                    n == self.cells@.len(),
                    self.inv(),
                    self.width == old(self).width,
                    self.height == old(self).height,
                    min_cells == min_seed_count(n as nat),
                    min_cells <= 10 < n,
                    count == count_alive(self@.cells),
                    count <= min_cells,
                    forall|k: int| 0 <= k < j ==> self@.cells[k],
                decreases n - j,
            {
                proof {
                    assert(self@.cells.take(j as int).len() == j);
                    lemma_count_all_true(self@.cells.take(j as int));
                    lemma_count_take_le(self@.cells, j as int);
                    assert(j <= count < min_cells <= 10 < n);
                }
                if !self.cells[j].is_alive() {
                    let ghost before = self@.cells;
                    self.cells.set(j, Cell::alive());
                    proof {
                        assert(self@.cells =~= before.update(j as int, true));
                        lemma_count_update(before, j as int, true);
                    }
                    count = count + 1;
                }
                j = j + 1;
            }
        }
    }

    /// Replaces the grid with a `new_width * new_height` one, discarding
    /// the old cells, then reseeds at the given density (in thousandths)
    /// and places a glider — and, on wide grids, a blinker — so the
    /// result is visually nonempty. A strict no-op when the requested
    /// dimensions equal the current ones.
    pub fn resize_and_redistribute(&mut self, new_width: usize, new_height: usize, density: u32)
        requires
            old(self).inv(),
            new_width * new_height <= usize::MAX,
        ensures
            final(self).inv(),
            final(self)@.width == new_width,
            final(self)@.height == new_height,
            old(self)@.width == new_width && old(self)@.height == new_height ==> final(self)@
                == old(self)@,
            !(old(self)@.width == new_width && old(self)@.height == new_height) && new_width
                * new_height > 10 ==> count_alive(final(self)@.cells) >= 3,
            !(old(self)@.width == new_width && old(self)@.height == new_height) && new_width > 15
                && new_height > 15 ==> forall|k: int|
                0 <= k < glider_offsets().len() ==> final(self)@.alive(
                    5 + glider_offsets()[k].0,
                    5 + glider_offsets()[k].1,
                ),
            !(old(self)@.width == new_width && old(self)@.height == new_height) && new_height > 15
                && new_width > 30 ==> forall|k: int|
                0 <= k < blinker_offsets().len() && new_width - 10 + blinker_offsets()[k].0
                    < new_height ==> final(self)@.alive(
                    new_width - 10 + blinker_offsets()[k].0,
                    8 + blinker_offsets()[k].1,
                ),
    {
        if self.width == new_width && self.height == new_height {
            return ;
        }
        let n = new_width * new_height;
        let mut cells: Vec<Cell> = Vec::new();
        let mut scratch: Vec<Cell> = Vec::new();
        let mut i: usize = 0;
        while i < n
            invariant
                i <= n,
                cells@.len() == i,
                scratch@.len() == i,
            decreases n - i,
        {
            cells.push(Cell::dead());
            scratch.push(Cell::dead());
            i = i + 1;
        }
        self.width = new_width;
        self.height = new_height;
        self.cells = cells;
        self.scratch = scratch;
        self.randomize(density);
        let ghost seeded = self@;
        if new_width > 15 && new_height > 15 {
            self.add_glider(5, 5);
            let ghost with_glider = self@;
            proof {
                lemma_with_pattern_alive(seeded, 5, 5, glider_offsets());
                lemma_with_pattern_count(seeded, 5, 5, glider_offsets());
                assert forall|k: int| 0 <= k < glider_offsets().len() implies with_glider.alive(
                    5 + glider_offsets()[k].0,
                    5 + glider_offsets()[k].1,
                ) by {
                    assert(glider_offsets()[k].0 <= 2 && glider_offsets()[k].1 <= 2);
                }
            }
            if new_width > 30 {
                self.add_blinker(new_width - 10, 8);
                proof {
                    lemma_with_pattern_alive(
                        with_glider,
                        new_width - 10,
                        8,
                        blinker_offsets(),
                    );
                    lemma_with_pattern_count(
                        with_glider,
                        new_width - 10,
                        8,
                        blinker_offsets(),
                    );
                    assert forall|k: int|
                        0 <= k < blinker_offsets().len() && new_width - 10
                            + blinker_offsets()[k].0 < new_height implies self@.alive(
                        new_width - 10 + blinker_offsets()[k].0,
                        8 + blinker_offsets()[k].1,
                    ) by {
                        assert(blinker_offsets()[k].0 == 0 && blinker_offsets()[k].1 <= 2);
                        assert(0 <= k < blinker_offsets().len() && new_width - 10
                            + blinker_offsets()[k].0 == new_width - 10 + blinker_offsets()[k].0
                            && 8 + blinker_offsets()[k].1 == 8 + blinker_offsets()[k].1);
                    }
                }
            }
        }
    }

    /// True exactly when this grid has the same dimensions and the same
    /// cell states as `previous`.
    pub fn is_stable(&self, previous: &Universe) -> (r: bool)
        requires
            self.inv(),
            previous.inv(),
        ensures
            r == (self@ == previous@),
    {
        if self.width != previous.width || self.height != previous.height {
            return false;
        }
        let n = self.cells.len();
        let mut i: usize = 0;
        while i < n
            invariant
                i <= n,
                self.inv(),
                previous.inv(),
                n == self.cells@.len(),
                n == previous.cells@.len(),
                self.width == previous.width,
                self.height == previous.height,
                forall|j: int| 0 <= j < i ==> self@.cells[j] == previous@.cells[j],
            decreases n - i,
        {
            if self.cells[i].is_alive() != previous.cells[i].is_alive() {
                proof {
                    assert(self@.cells[i as int] != previous@.cells[i as int]);
                }
                return false;
            }
            i = i + 1;
        }
        proof {
            assert(self@.cells =~= previous@.cells);
            assert(self@ =~= previous@);
        }
        true
    }
}

} // verus!
