use vstd::prelude::*;

use crate::cell::{Cell, CellView};
use vstd::arithmetic::div_mod::lemma_fundamental_div_mod;

verus! {

/// Flat offset of column `x` in row `y` of a row-major grid `cols` wide.
pub open spec fn flat_index(cols: int, x: int, y: int) -> int {
    y * cols + x
}

/// Offsets of the cells of a row-major grid lie inside its storage.
proof fn lemma_flat_index_bounds(cols: int, rows: int, x: int, y: int)
    requires
        0 <= x < cols,
        0 <= y < rows,
    ensures
        y * cols <= flat_index(cols, x, y) < (y + 1) * cols,
        (y + 1) * cols <= cols * rows,
        0 <= flat_index(cols, x, y) < cols * rows,
        flat_index(cols, x, y) < rows * cols,
{
    assert(y * cols <= y * cols + x < (y + 1) * cols) by (nonlinear_arith)
        requires
            0 <= x < cols,
            0 <= y,
    ;
    assert((y + 1) * cols <= cols * rows) by (nonlinear_arith)
        requires
            0 <= x < cols,
            0 <= y < rows,
    ;
    assert(cols * rows == rows * cols) by (nonlinear_arith);
}

/// Earlier rows of a row-major grid end before later rows begin.
proof fn lemma_rows_ordered(cols: int, y1: int, y2: int)
    requires
        0 <= cols,
        0 <= y1 < y2,
    ensures
        (y1 + 1) * cols <= y2 * cols,
{
    assert((y1 + 1) * cols <= y2 * cols) by (nonlinear_arith)
        requires
            0 <= cols,
            0 <= y1 < y2,
    ;
}

/// Every offset of a row-major grid's storage is the offset of some
/// position of the grid.
proof fn lemma_position_of_offset(cols: int, rows: int, i: int)
    requires
        0 <= cols,
        0 <= rows,
        0 <= i < cols * rows,
    ensures
        0 < cols,
        0 <= i % cols < cols,
        0 <= i / cols < rows,
        flat_index(cols, i % cols, i / cols) == i,
{
    assert(0 < cols) by (nonlinear_arith)
        requires
            0 <= cols,
            0 <= rows,
            0 <= i < cols * rows,
    ;
    lemma_fundamental_div_mod(i, cols);
    let q = i / cols;
    let r = i % cols;
    assert(0 <= q < rows) by (nonlinear_arith)
        requires
            0 < cols,
            0 <= r < cols,
            i == cols * q + r,
            0 <= i < cols * rows,
    ;
    assert(q * cols == cols * q) by (nonlinear_arith);
}

/// What a `CellBuffer` holds: its dimensions and its cells in row-major
/// order.
pub struct GridView {
    pub cols: nat,
    pub rows: nat,
    pub cells: Seq<Cell>,
}

impl GridView {
    /// The storage holds exactly one cell per grid position.
    pub open spec fn wf(self) -> bool {
        self.cells.len() == self.cols * self.rows
    }

    /// Whether `(x, y)` names a position of the grid.
    pub open spec fn in_bounds(self, x: int, y: int) -> bool {
        0 <= x < self.cols && 0 <= y < self.rows
    }

    /// The cell at column `x` of row `y`.
    pub open spec fn cell_at(self, x: int, y: int) -> Cell {
        self.cells[flat_index(self.cols as int, x, y)]
    }

    /// The grid with the cell at `(x, y)` replaced by `v`.
    pub open spec fn with_cell(self, x: int, y: int, v: Cell) -> GridView {
        GridView {
            cols: self.cols,
            rows: self.rows,
            cells: self.cells.update(flat_index(self.cols as int, x, y), v),
        }
    }

    /// The grid with every cell replaced by `blank`.
    pub open spec fn filled(self, blank: Cell) -> GridView {
        GridView { cols: self.cols, rows: self.rows, cells: Seq::new(self.cells.len(), |i: int| blank) }
    }

    /// The cell that position `(x, y)` holds after `old` is resized with
    /// `blank`: the old cell where the old grid had one, `blank` elsewhere.
    pub open spec fn resized_cell(old: GridView, x: int, y: int, blank: Cell) -> Cell {
        if old.in_bounds(x, y) {
            old.cell_at(x, y)
        } else {
            blank
        }
    }

    /// Whether this grid is `old` resized to `cols` by `rows`, with `blank`
    /// in the positions that `old` did not have.
    pub open spec fn is_resize_of(self, old: GridView, cols: nat, rows: nat, blank: Cell) -> bool {
        &&& self.cols == cols
        &&& self.rows == rows
        &&& self.wf()
        &&& forall|x: int, y: int|
            self.in_bounds(x, y) ==> #[trigger] self.cell_at(x, y) == GridView::resized_cell(
                old,
                x,
                y,
                blank,
            )
    }
}

/// An array of `Cell`s that represents a terminal display.
///
/// The grid is `cols` wide and `rows` high; the cell at column `x` of row `y`
/// is stored at offset `y * cols + x` of one contiguous vector.
#[derive(Debug, Clone)]
pub struct CellBuffer {
    cols: usize,
    rows: usize,
    buf: Vec<Cell>,
}

impl View for CellBuffer {
    type V = GridView;

    closed spec fn view(&self) -> GridView {
        GridView { cols: self.cols as nat, rows: self.rows as nat, cells: self.buf@ }
    }
}

impl CellBuffer {
    /// The buffer's storage matches its dimensions, and its length fits in
    /// a `usize`.
    pub open spec fn wf(&self) -> bool {
        &&& self@.wf()
        &&& self@.cols * self@.rows <= usize::MAX
    }

    /// Creates a buffer `cols` wide and `rows` high, every cell the default
    /// cell.
    pub fn new(cols: usize, rows: usize) -> (r: CellBuffer)
        requires
            cols * rows <= usize::MAX,
        ensures
            r.wf(),
            r@.cols == cols,
            r@.rows == rows,
            r@.cells.len() == cols * rows,
            forall|i: int| 0 <= i < r@.cells.len() ==> (#[trigger] r@.cells[i])@ == CellView::blank(),
    {
        let len = cols * rows;
        let mut buf: Vec<Cell> = Vec::with_capacity(len);
        let mut i: usize = 0;
        while i < len
            invariant
                i <= len,
                buf@.len() == i,
                forall|j: int| 0 <= j < i ==> (#[trigger] buf@[j])@ == CellView::blank(),
            decreases len - i,
        {
            buf.push(Cell::default());
            i = i + 1;
        }
        CellBuffer { cols: cols, rows: rows, buf: buf }
    }

    /// Returns the cell at column `x` of row `y`, or `None` where the
    /// position lies outside the grid.
    pub fn get(&self, x: usize, y: usize) -> (r: Option<&Cell>)
        requires
            self.wf(),
        ensures
            r.is_some() <==> self@.in_bounds(x as int, y as int),
            r.is_some() ==> *r.unwrap() == self@.cell_at(x as int, y as int),
    {
        if x < self.cols && y < self.rows {
            proof {
                lemma_flat_index_bounds(self.cols as int, self.rows as int, x as int, y as int);
            }
            let offset = y * self.cols + x;
            Some(&self.buf[offset])
        } else {
            None
        }
    }

    /// Returns the cell at column `x` of row `y` for writing, or `None` where
    /// the position lies outside the grid.
    pub fn get_mut(&mut self, x: usize, y: usize) -> (r: Option<&mut Cell>)
        requires
            old(self).wf(),
        ensures
            r.is_some() <==> old(self)@.in_bounds(x as int, y as int),
            match r {
                Some(c) => {
                    &&& *c == old(self)@.cell_at(x as int, y as int)
                    &&& final(self)@ == old(self)@.with_cell(x as int, y as int, *final(c))
                },
                None => *final(self) == *old(self),
            },
    {
        if x < self.cols && y < self.rows {
            proof {
                lemma_flat_index_bounds(self.cols as int, self.rows as int, x as int, y as int);
            }
            let offset = y * self.cols + x;
            Some(&mut self.buf[offset])
        } else {
            None
        }
    }

    /// Returns the cell at `index`, given as `(x, y)`: column `x` of row
    /// `y`. The position must lie inside the grid; `get` is the checked form.
    pub fn index(&self, index: (usize, usize)) -> (r: &Cell)
        requires
            self.wf(),
            self@.in_bounds(index.0 as int, index.1 as int),
        ensures
            *r == self@.cell_at(index.0 as int, index.1 as int),
    {
        let (x, y) = index;
        self.get(x, y).unwrap()
    }

    /// Returns the cell at `index`, given as `(x, y)`, for writing. The
    /// position must lie inside the grid; `get_mut` is the checked form.
    pub fn index_mut(&mut self, index: (usize, usize)) -> (r: &mut Cell)
        requires
            old(self).wf(),
            old(self)@.in_bounds(index.0 as int, index.1 as int),
        ensures
            *r == old(self)@.cell_at(index.0 as int, index.1 as int),
            final(self)@ == old(self)@.with_cell(index.0 as int, index.1 as int, *final(r)),
    {
        let (x, y) = index;
        self.get_mut(x, y).unwrap()
    }

    /// The cells in row-major order, for linear reading.
    pub fn as_slice(&self) -> (r: &[Cell])
        ensures
            r@ == self@.cells,
    {
        self.buf.as_slice()
    }

    /// The cell at flat offset `i` of the row-major storage, for writing.
    /// The dimensions stay as they are.
    pub fn flat_mut(&mut self, i: usize) -> (r: &mut Cell)
        requires
            old(self).wf(),
            i < old(self)@.cells.len(),
        ensures
            *r == old(self)@.cells[i as int],
            final(self)@ == (GridView {
                cols: old(self)@.cols,
                rows: old(self)@.rows,
                cells: old(self)@.cells.update(i as int, *final(r)),
            }),
    {
        &mut self.buf[i]
    }

    /// Overwrites every cell with `blank`; the dimensions stay as they are.
    pub fn clear(&mut self, blank: Cell)
        requires
            old(self).wf(),
        ensures
            final(self).wf(),
            final(self)@ == old(self)@.filled(blank),
    {
        let mut i: usize = 0;
        while i < self.buf.len()
            invariant
                self@.cols == old(self)@.cols,
                self@.rows == old(self)@.rows,
                self@.cells.len() == old(self)@.cells.len(),
                i <= self@.cells.len(),
                forall|j: int| 0 <= j < i ==> #[trigger] self@.cells[j] == blank,
            decreases self@.cells.len() - i,
        {
            self.buf.set(i, blank);
            i = i + 1;
        }
        assert(self@.cells =~= old(self)@.filled(blank).cells);
    }

    /// Resizes the buffer to `newcols` by `newrows`. Every position that the
    /// old grid had keeps its cell; the new positions hold `blank`; cells
    /// outside the new grid are dropped.
    pub fn resize(&mut self, newcols: usize, newrows: usize, blank: Cell)
        requires
            old(self).wf(),
            newcols * newrows <= usize::MAX,
        ensures
            final(self).wf(),
            final(self)@.is_resize_of(old(self)@, newcols as nat, newrows as nat, blank),
    {
        let oldcols = self.cols;
        let oldrows = self.rows;
        let mut newbuf: Vec<Cell> = Vec::with_capacity(newcols * newrows);
        let mut y: usize = 0;
        while y < newrows
            invariant
                *self == *old(self),
                self.wf(),
                oldcols == self@.cols,
                oldrows == self@.rows,
                newcols * newrows <= usize::MAX,
                y <= newrows,
                newbuf@.len() == y * newcols,
                forall|xx: int, yy: int|
                    0 <= xx < newcols && 0 <= yy < y ==> #[trigger] newbuf@[flat_index(
                        newcols as int,
                        xx,
                        yy,
                    )] == GridView::resized_cell(self@, xx, yy, blank),
            decreases newrows - y,
        {
            let mut x: usize = 0;
            while x < newcols
                invariant
                    *self == *old(self),
                    self.wf(),
                    oldcols == self@.cols,
                    oldrows == self@.rows,
                    y < newrows,
                    x <= newcols,
                    newbuf@.len() == y * newcols + x,
                    forall|xx: int, yy: int|
                        0 <= xx < newcols && 0 <= yy < y ==> #[trigger] newbuf@[flat_index(
                            newcols as int,
                            xx,
                            yy,
                        )] == GridView::resized_cell(self@, xx, yy, blank),
                    forall|xx: int|
                        0 <= xx < x ==> #[trigger] newbuf@[flat_index(newcols as int, xx, y as int)]
                            == GridView::resized_cell(self@, xx, y as int, blank),
                decreases newcols - x,
            {
                let ghost before = newbuf@;
                if x < oldcols && y < oldrows {
                    proof {
                        lemma_flat_index_bounds(oldcols as int, oldrows as int, x as int, y as int);
                    }
                    newbuf.push(self.buf[y * oldcols + x]);
                } else {
                    newbuf.push(blank);
                }
                assert forall|xx: int, yy: int| 0 <= xx < newcols && 0 <= yy < y implies #[trigger] newbuf@[flat_index(
                    newcols as int,
                    xx,
                    yy,
                )] == before[flat_index(newcols as int, xx, yy)] by {
                    lemma_flat_index_bounds(newcols as int, y as int, xx, yy);
                }
                x = x + 1;
            }
            proof {
                assert((y + 1) * newcols == y * newcols + newcols) by (nonlinear_arith);
            }
            y = y + 1;
        }
        assert(newrows * newcols == newcols * newrows) by (nonlinear_arith);
        let ghost old_view = self@;
        self.cols = newcols;
        self.rows = newrows;
        self.buf = newbuf;
        assert forall|x: int, y: int| self@.in_bounds(x, y) implies #[trigger] self@.cell_at(x, y)
            == GridView::resized_cell(old_view, x, y, blank) by {
            lemma_flat_index_bounds(newcols as int, newrows as int, x, y);
        }
    }
}

impl PartialEq for CellBuffer {
    fn eq(&self, other: &CellBuffer) -> (r: bool) {
        if self.cols != other.cols || self.rows != other.rows || self.buf.len() != other.buf.len() {
            return false;
        }
        let mut i: usize = 0;
        while i < self.buf.len()
            invariant
                self.buf@.len() == other.buf@.len(),
                i <= self.buf@.len(),
                forall|j: int| 0 <= j < i ==> self.buf@[j] == other.buf@[j],
            decreases self.buf@.len() - i,
        {
            if self.buf[i] != other.buf[i] {
                return false;
            }
            i = i + 1;
        }
        assert(self.buf@ =~= other.buf@);
        true
    }
}

impl vstd::std_specs::cmp::PartialEqSpecImpl for CellBuffer {
    open spec fn obeys_eq_spec() -> bool {
        true
    }

    open spec fn eq_spec(&self, other: &CellBuffer) -> bool {
        self@ == other@
    }
}

impl std::ops::Deref for CellBuffer {
    type Target = [Cell];

    fn deref(&self) -> (r: &[Cell])
        ensures
            r@ == self@.cells,
    {
        self.as_slice()
    }
}

impl std::ops::DerefMut for CellBuffer {
    fn deref_mut(&mut self) -> (r: &mut [Cell])
        ensures
            r@ == old(self)@.cells,
            final(self)@ == (GridView { cols: old(self)@.cols, rows: old(self)@.rows, cells: final(r)@ }),
    {
        self.buf.as_mut_slice()
    }
}

impl Eq for CellBuffer {

}

/// Writing a cell at a position of the grid and reading that position
/// back gives the cell written; every other position keeps its cell.
pub proof fn lemma_write_then_read(g: GridView, x: int, y: int, v: Cell)
    requires
        g.wf(),
        g.in_bounds(x, y),
    ensures
        g.with_cell(x, y, v).wf(),
        g.with_cell(x, y, v).cell_at(x, y) == v,
        forall|x2: int, y2: int|
            g.in_bounds(x2, y2) && (x2, y2) != (x, y) ==> #[trigger] g.with_cell(x, y, v).cell_at(x2, y2)
                == g.cell_at(x2, y2),
{
    lemma_flat_index_bounds(g.cols as int, g.rows as int, x, y);
    assert forall|x2: int, y2: int|
        g.in_bounds(x2, y2) && (x2, y2) != (x, y) implies #[trigger] g.with_cell(x, y, v).cell_at(x2, y2)
        == g.cell_at(x2, y2) by {
        lemma_flat_index_bounds(g.cols as int, g.rows as int, x2, y2);
        if y2 < y {
            lemma_rows_ordered(g.cols as int, y2, y);
        } else if y < y2 {
            lemma_rows_ordered(g.cols as int, y, y2);
        }
    }
}

/// The cell at column `x` of row `y` is the one at flat offset
/// `y * cols + x`, and that offset lies inside the storage.
pub proof fn lemma_row_major(g: GridView, x: int, y: int)
    requires
        g.wf(),
        g.in_bounds(x, y),
    ensures
        0 <= y * g.cols + x < g.cells.len(),
        g.cell_at(x, y) == g.cells[y * g.cols + x],
{
    lemma_flat_index_bounds(g.cols as int, g.rows as int, x, y);
}

/// Clearing twice with the same blank is clearing once, and after a clear
/// every cell is the blank.
pub proof fn lemma_clear_idempotent(g: GridView, blank: Cell)
    ensures
        g.filled(blank).filled(blank) == g.filled(blank),
        forall|i: int| 0 <= i < g.filled(blank).cells.len() ==> #[trigger] g.filled(blank).cells[i] == blank,
{
    assert(g.filled(blank).filled(blank).cells =~= g.filled(blank).cells);
}

/// Resizing a grid to the dimensions it already has leaves it unchanged,
/// whatever the blank.
pub proof fn lemma_resize_same_size(old: GridView, new: GridView, blank: Cell)
    requires
        old.wf(),
        new.is_resize_of(old, old.cols, old.rows, blank),
    ensures
        new == old,
{
    assert forall|i: int| 0 <= i < new.cells.len() implies new.cells[i] == old.cells[i] by {
        lemma_position_of_offset(old.cols as int, old.rows as int, i);
        assert(new.cell_at(i % old.cols as int, i / old.cols as int) == GridView::resized_cell(
            old,
            i % old.cols as int,
            i / old.cols as int,
            blank,
        ));
    }
    assert(new.cells =~= old.cells);
}

} // verus!
