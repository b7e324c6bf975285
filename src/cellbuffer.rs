use vstd::prelude::*;

use crate::cell::{Attr, Cell, Color, Style};
use crate::error::Error;
use crate::grid::{cleared, filled, is_grid, resized};

verus! {

/// A rectangular grid of cells, addressed by zero-based column, then row.
#[derive(Debug)]
pub struct CellBuffer {
    cols: usize,
    rows: usize,
    cells: Vec<Vec<Cell>>,
}

impl View for CellBuffer {
    type V = Seq<Seq<Cell>>;

    /// The cells, column by column.
    closed spec fn view(&self) -> Seq<Seq<Cell>> {
        Seq::new(self.cells@.len(), |i: int| self.cells@[i]@)
    }
}

impl CellBuffer {
    pub closed spec fn spec_cols(&self) -> usize {
        self.cols
    }

    pub closed spec fn spec_rows(&self) -> usize {
        self.rows
    }

    /// The grid holds `cols` columns of `rows` cells each.
    pub open spec fn wf(&self) -> bool {
        is_grid(self@, self.cols() as nat, self.rows() as nat)
    }

    /// A column of `rows` copies of `cell`.
    fn column_of(rows: usize, cell: Cell) -> (r: Vec<Cell>)
        ensures
            r@ == Seq::new(rows as nat, |j: int| cell),
    {
        let mut col: Vec<Cell> = Vec::new();
        while col.len() < rows
            invariant
                col.len() <= rows,
                forall|j: int| 0 <= j < col.len() ==> col@[j] == cell,
            decreases rows - col.len(),
        {
            col.push(cell);
        }
        assert(col@ =~= Seq::new(rows as nat, |j: int| cell));
        col
    }

    /// A buffer of `cols` columns of `rows` default cells.
    pub fn new(cols: usize, rows: usize) -> (r: CellBuffer)
        ensures
            r.wf(),
            r.cols() == cols,
            r.rows() == rows,
            r@ == filled(cols as nat, rows as nat, Cell::blank()),
    {
        CellBuffer::with_cell(cols, rows, Cell::default())
    }

    /// A buffer of `cols` columns of `rows` cells holding `ch` with default styles.
    pub fn with_char(cols: usize, rows: usize, ch: char) -> (r: CellBuffer)
        ensures
            r.wf(),
            r.cols() == cols,
            r.rows() == rows,
            r@ == filled(
                cols as nat,
                rows as nat,
                Cell::of(ch, Style::of(Color::Default, Attr::Default), Style::of(Color::Default, Attr::Default)),
            ),
    {
        CellBuffer::with_cell(cols, rows, Cell::with_char(ch))
    }

    /// A buffer of `cols` columns of `rows` spaces with the given styles.
    pub fn with_styles(cols: usize, rows: usize, fg: Style, bg: Style) -> (r: CellBuffer)
        ensures
            r.wf(),
            r.cols() == cols,
            r.rows() == rows,
            r@ == filled(cols as nat, rows as nat, Cell::of(' ', fg, bg)),
    {
        CellBuffer::with_cell(cols, rows, Cell::with_styles(fg, bg))
    }

    /// A buffer of `cols` columns of `rows` copies of `cell`.
    pub fn with_cell(cols: usize, rows: usize, cell: Cell) -> (r: CellBuffer)
        ensures
            r.wf(),
            r.cols() == cols,
            r.rows() == rows,
            r@ == filled(cols as nat, rows as nat, cell),
    {
        let mut cells: Vec<Vec<Cell>> = Vec::new();
        while cells.len() < cols
            invariant
                cells.len() <= cols,
                forall|i: int| 0 <= i < cells.len() ==> #[trigger] cells@[i]@ == Seq::new(rows as nat, |j: int| cell),
            decreases cols - cells.len(),
        {
            cells.push(CellBuffer::column_of(rows, cell));
        }
        let r = CellBuffer { cols, rows, cells };
        assert(r@ =~= filled(cols as nat, rows as nat, cell));
        r
    }

    #[verifier::when_used_as_spec(spec_cols)]
    /// The number of columns.
    pub fn cols(&self) -> (r: usize)
        ensures
            r == self.cols(),
    {
        self.cols
    }

    #[verifier::when_used_as_spec(spec_rows)]
    /// The number of cells in each column.
    pub fn rows(&self) -> (r: usize)
        ensures
            r == self.rows(),
    {
        self.rows
    }

    /// The shape as (columns, rows).
    pub fn size(&self) -> (r: (usize, usize))
        ensures
            r == (self.cols(), self.rows()),
    {
        (self.cols, self.rows)
    }

    /// Replaces every cell by a default cell.
    pub fn clear(&mut self)
        requires
            old(self).wf(),
        ensures
            final(self).wf(),
            final(self).cols() == old(self).cols(),
            final(self).rows() == old(self).rows(),
            final(self)@ == cleared(old(self)@, Cell::blank()),
    {
        self.clear_with_cell(Cell::default());
    }

    /// Replaces every cell by `ch` with default styles.
    pub fn clear_with_char(&mut self, ch: char)
        requires
            old(self).wf(),
        ensures
            final(self).wf(),
            final(self).cols() == old(self).cols(),
            final(self).rows() == old(self).rows(),
            final(self)@ == cleared(
                old(self)@,
                Cell::of(ch, Style::of(Color::Default, Attr::Default), Style::of(Color::Default, Attr::Default)),
            ),
    {
        self.clear_with_cell(Cell::with_char(ch));
    }

    /// Replaces every cell by a space with the given styles.
    pub fn clear_with_styles(&mut self, fg: Style, bg: Style)
        requires
            old(self).wf(),
        ensures
            final(self).wf(),
            final(self).cols() == old(self).cols(),
            final(self).rows() == old(self).rows(),
            final(self)@ == cleared(old(self)@, Cell::of(' ', fg, bg)),
    {
        self.clear_with_cell(Cell::with_styles(fg, bg));
    }

    /// Replaces every cell by `blank`; the shape is kept.
    pub fn clear_with_cell(&mut self, blank: Cell)
        requires
            old(self).wf(),
        ensures
            final(self).wf(),
            final(self).cols() == old(self).cols(),
            final(self).rows() == old(self).rows(),
            final(self)@ == cleared(old(self)@, blank),
    {
        let ghost g = self@;
        let mut i: usize = 0;
        while i < self.cells.len()
            invariant
                self.cols == old(self).cols,
                self.rows == old(self).rows,
                g == old(self)@,
                self.cells.len() == g.len(),
                0 <= i <= g.len(),
                forall|k: int| 0 <= k < g.len() ==> #[trigger] self.cells@[k]@.len() == g[k].len(),
                forall|k: int, j: int|
                    0 <= k < i && 0 <= j < g[k].len() ==> #[trigger] self.cells@[k]@[j] == blank,
                forall|k: int, j: int|
                    i <= k < g.len() && 0 <= j < g[k].len() ==> #[trigger] self.cells@[k]@[j] == g[k][j],
            decreases g.len() - i,
        {
            let mut j: usize = 0;
            while j < self.cells[i].len()
                invariant
                    self.cols == old(self).cols,
                    self.rows == old(self).rows,
                    g == old(self)@,
                    self.cells.len() == g.len(),
                    0 <= i < g.len(),
                    0 <= j <= g[i as int].len(),
                    forall|k: int| 0 <= k < g.len() ==> #[trigger] self.cells@[k]@.len() == g[k].len(),
                    forall|k: int, l: int|
                        0 <= k < i && 0 <= l < g[k].len() ==> #[trigger] self.cells@[k]@[l] == blank,
                    forall|l: int| 0 <= l < j ==> #[trigger] self.cells@[i as int]@[l] == blank,
                    forall|k: int, l: int|
                        i < k < g.len() && 0 <= l < g[k].len() ==> #[trigger] self.cells@[k]@[l] == g[k][l],
                decreases g[i as int].len() - j,
            {
                self.cells[i][j] = blank;
                j = j + 1;
            }
            i = i + 1;
        }
        assert forall|k: int| 0 <= k < g.len() implies #[trigger] self@[k] =~= cleared(g, blank)[k] by {}
        assert(self@ =~= cleared(g, blank));
    }

    /// Changes the shape to `newcols` columns of `newrows` cells. Cells at
    /// positions that both shapes have are kept; new positions hold `blank`.
    pub fn resize(&mut self, newcols: usize, newrows: usize, blank: Cell)
        requires
            old(self).wf(),
        ensures
            final(self).wf(),
            final(self).cols() == newcols,
            final(self).rows() == newrows,
            final(self)@ == resized(old(self)@, newcols as nat, newrows as nat, blank),
    {
        let ghost g = self@;
        let ghost want = resized(g, newcols as nat, newrows as nat, blank);
        if newcols <= self.cells.len() {
            self.cells.truncate(newcols);
        } else {
            while self.cells.len() < newcols
                invariant
                    g == old(self)@,
                    old(self).wf(),
                    g.len() <= self.cells.len() <= newcols,
                    forall|k: int| 0 <= k < g.len() ==> #[trigger] self.cells@[k]@ == g[k],
                    forall|k: int|
                        g.len() <= k < self.cells.len() ==> #[trigger] self.cells@[k]@ == Seq::new(
                            newrows as nat,
                            |j: int| blank,
                        ),
                decreases newcols - self.cells.len(),
            {
                self.cells.push(CellBuffer::column_of(newrows, blank));
            }
        }
        let mut i: usize = 0;
        while i < self.cells.len()
            invariant
                g == old(self)@,
                old(self).wf(),
                want == resized(g, newcols as nat, newrows as nat, blank),
                self.cells.len() == newcols,
                0 <= i <= newcols,
                forall|k: int| 0 <= k < i ==> #[trigger] self.cells@[k]@ == want[k],
                forall|k: int| i <= k < newcols && k < g.len() ==> #[trigger] self.cells@[k]@ == g[k],
                forall|k: int|
                    i <= k < newcols && g.len() <= k ==> #[trigger] self.cells@[k]@ == Seq::new(
                        newrows as nat,
                        |j: int| blank,
                    ),
            decreases newcols - i,
        {
            self.cells[i].resize(newrows, blank);
            assert(self.cells@[i as int]@ =~= want[i as int]);
            i = i + 1;
        }
        self.cols = newcols;
        self.rows = newrows;
        assert forall|k: int| 0 <= k < newcols implies #[trigger] self@[k] == want[k] by {}
        assert(self@ =~= want);
    }

    /// The cells of column `col`, top to bottom.
    pub fn index(&self, col: usize) -> (r: Result<&Vec<Cell>, Error>)
        requires
            self.wf(),
        ensures
            match r {
                Ok(v) => col < self.cols() && v@ == self@[col as int],
                Err(e) => col >= self.cols() && e == Error::IndexOutOfBounds,
            },
    {
        if col < self.cells.len() {
            Ok(&self.cells[col])
        } else {
            Err(Error::IndexOutOfBounds)
        }
    }

    /// The cell at column `col`, row `row`.
    pub fn get(&self, col: usize, row: usize) -> (r: Result<Cell, Error>)
        requires
            self.wf(),
        ensures
            match r {
                Ok(c) => col < self.cols() && row < self.rows() && c == self@[col as int][row as int],
                Err(e) => (col >= self.cols() || row >= self.rows()) && e == Error::IndexOutOfBounds,
            },
    {
        let column = self.index(col)?;
        if row < column.len() {
            Ok(column[row])
        } else {
            Err(Error::IndexOutOfBounds)
        }
    }

    /// A mutable reference to the cell at column `col`, row `row`.
    pub fn index_mut(&mut self, col: usize, row: usize) -> (r: Result<&mut Cell, Error>)
        requires
            old(self).wf(),
        ensures
            match r {
                Ok(c) => {
                    &&& col < old(self).cols() && row < old(self).rows()
                    &&& *c == old(self)@[col as int][row as int]
                    &&& final(self).cols() == old(self).cols()
                    &&& final(self).rows() == old(self).rows()
                    &&& final(self)@ == old(self)@.update(col as int, old(self)@[col as int].update(row as int, *final(c)))
                    &&& final(self).wf()
                },
                Err(e) => {
                    &&& (col >= old(self).cols() || row >= old(self).rows())
                    &&& e == Error::IndexOutOfBounds
                    &&& *final(self) == *old(self)
                },
            },
    {
        if col < self.cells.len() && row < self.rows {
            assert(self@[col as int].len() == self.rows);
            Ok(&mut self.cells[col][row])
        } else {
            Err(Error::IndexOutOfBounds)
        }
    }
}

impl Clone for CellBuffer {
    fn clone(&self) -> (r: CellBuffer)
        ensures
            r.cols() == self.cols(),
            r.rows() == self.rows(),
            r@ == self@,
    {
        let mut cells: Vec<Vec<Cell>> = Vec::new();
        let mut i: usize = 0;
        while i < self.cells.len()
            invariant
                i <= self.cells.len(),
                cells.len() == i,
                forall|k: int| 0 <= k < i ==> #[trigger] cells@[k]@ == self.cells@[k]@,
            decreases self.cells.len() - i,
        {
            let mut col: Vec<Cell> = Vec::new();
            let mut j: usize = 0;
            while j < self.cells[i].len()
                invariant
                    i < self.cells.len(),
                    j <= self.cells@[i as int].len(),
                    col@ == self.cells@[i as int]@.subrange(0, j as int),
                decreases self.cells@[i as int].len() - j,
            {
                col.push(self.cells[i][j]);
                j = j + 1;
                assert(col@ =~= self.cells@[i as int]@.subrange(0, j as int));
            }
            assert(col@ =~= self.cells@[i as int]@);
            cells.push(col);
            i = i + 1;
        }
        let r = CellBuffer { cols: self.cols, rows: self.rows, cells };
        assert(r@ =~= self@);
        r
    }
}

impl PartialEq for CellBuffer {
    fn eq(&self, other: &CellBuffer) -> (r: bool)
        ensures
            r == (self.cols() == other.cols() && self.rows() == other.rows() && self@ == other@),
    {
        if self.cols != other.cols || self.rows != other.rows || self.cells.len() != other.cells.len() {
            proof {
                if self@ == other@ {
                    assert(self.cells@.len() == self@.len());
                }
            }
            return false;
        }
        let mut i: usize = 0;
        while i < self.cells.len()
            invariant
                i <= self.cells.len(),
                self.cells.len() == other.cells.len(),
                forall|k: int| 0 <= k < i ==> #[trigger] self.cells@[k]@ == other.cells@[k]@,
            decreases self.cells.len() - i,
        {
            if self.cells[i].len() != other.cells[i].len() {
                assert(self@[i as int].len() != other@[i as int].len());
                return false;
            }
            let mut j: usize = 0;
            while j < self.cells[i].len()
                invariant
                    i < self.cells.len(),
                    self.cells.len() == other.cells.len(),
                    self.cells@[i as int].len() == other.cells@[i as int].len(),
                    j <= self.cells@[i as int].len(),
                    forall|l: int| 0 <= l < j ==> #[trigger] self.cells@[i as int]@[l] == other.cells@[i as int]@[l],
                decreases self.cells@[i as int].len() - j,
            {
                if self.cells[i][j] != other.cells[i][j] {
                    assert(self@[i as int][j as int] != other@[i as int][j as int]);
                    return false;
                }
                j = j + 1;
            }
            assert(self.cells@[i as int]@ =~= other.cells@[i as int]@);
            i = i + 1;
        }
        assert(self@ =~= other@);
        true
    }
}

impl vstd::std_specs::cmp::PartialEqSpecImpl for CellBuffer {
    open spec fn obeys_eq_spec() -> bool {
        true
    }

    open spec fn eq_spec(&self, other: &CellBuffer) -> bool {
        self.cols() == other.cols() && self.rows() == other.rows() && self@ == other@
    }
}

impl Eq for CellBuffer {
}

impl Default for CellBuffer {
    fn default() -> (r: CellBuffer)
        ensures
            r.wf(),
            r.cols() == 0,
            r.rows() == 0,
            r@ == Seq::<Seq<Cell>>::empty(),
    {
        let r = CellBuffer::with_cell(0, 0, Cell::default());
        assert(r@ =~= Seq::<Seq<Cell>>::empty());
        r
    }
}

} // verus!
