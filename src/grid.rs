use vstd::prelude::*;

use crate::cell::Cell;

verus! {

// A grid is a sequence of columns, each a sequence of cells from top to bottom.

/// The grid of `cols` columns of `rows` cells each, every cell equal to `c`.
pub open spec fn filled(cols: nat, rows: nat, c: Cell) -> Seq<Seq<Cell>> {
    Seq::new(cols, |i: int| Seq::new(rows, |j: int| c))
}

/// The grid of the same shape as `g` with every cell replaced by `blank`.
pub open spec fn cleared(g: Seq<Seq<Cell>>, blank: Cell) -> Seq<Seq<Cell>> {
    Seq::new(g.len(), |i: int| Seq::new(g[i].len(), |j: int| blank))
}

/// The grid of `cols` columns of `rows` cells each that keeps the cells of
/// `g` where both shapes have them and holds `blank` everywhere else.
pub open spec fn resized(g: Seq<Seq<Cell>>, cols: nat, rows: nat, blank: Cell) -> Seq<Seq<Cell>> {
    Seq::new(
        cols,
        |i: int|
            Seq::new(
                rows,
                |j: int|
                    if i < g.len() && j < g[i].len() {
                        g[i][j]
                    } else {
                        blank
                    },
            ),
    )
}

/// `g` has `cols` columns of `rows` cells each.
pub open spec fn is_grid(g: Seq<Seq<Cell>>, cols: nat, rows: nat) -> bool {
    &&& g.len() == cols
    &&& forall|i: int| 0 <= i < cols ==> #[trigger] g[i].len() == rows
}

/// Clearing a grid twice with the same blank cell gives the same grid as
/// clearing it once.
pub proof fn lemma_clear_idempotent(g: Seq<Seq<Cell>>, blank: Cell)
    ensures
        cleared(cleared(g, blank), blank) == cleared(g, blank),
{
    let once = cleared(g, blank);
    let twice = cleared(once, blank);
    assert forall|i: int| 0 <= i < g.len() implies #[trigger] twice[i] == once[i] by {
        assert(twice[i] =~= once[i]);
    }
    assert(twice =~= once);
}

/// Resizing a `cols` by `rows` grid to `newcols` by `newrows` and back to
/// `cols` by `rows` keeps the cells at the positions that both shapes have,
/// and holds `blank` at every position that left the smaller shape.
pub proof fn lemma_resize_round_trip(
    g: Seq<Seq<Cell>>,
    cols: nat,
    rows: nat,
    newcols: nat,
    newrows: nat,
    blank: Cell,
)
    requires
        is_grid(g, cols, rows),
    ensures
        is_grid(resized(resized(g, newcols, newrows, blank), cols, rows, blank), cols, rows),
        forall|i: int, j: int|
            0 <= i < cols && 0 <= j < rows ==> #[trigger] resized(
                resized(g, newcols, newrows, blank),
                cols,
                rows,
                blank,
            )[i][j] == if i < newcols && j < newrows {
                g[i][j]
            } else {
                blank
            },
{
    let there = resized(g, newcols, newrows, blank);
    let back = resized(there, cols, rows, blank);
    assert forall|i: int, j: int| 0 <= i < cols && 0 <= j < rows implies #[trigger] back[i][j] == if i
        < newcols && j < newrows {
        g[i][j]
    } else {
        blank
    } by {
        if i < newcols {
            assert(there[i].len() == newrows);
        }
        if i < newcols && j < newrows {
            assert(g[i].len() == rows);
        }
    }
}

/// Growing a grid by columns only keeps every existing column as it was and
/// appends columns of `blank` cells.
pub proof fn lemma_grow_columns(g: Seq<Seq<Cell>>, cols: nat, rows: nat, newcols: nat, blank: Cell)
    requires
        is_grid(g, cols, rows),
        cols < newcols,
    ensures
        resized(g, newcols, rows, blank) == g + filled((newcols - cols) as nat, rows, blank),
{
    let grown = resized(g, newcols, rows, blank);
    let want = g + filled((newcols - cols) as nat, rows, blank);
    assert forall|i: int| 0 <= i < newcols implies #[trigger] grown[i] == want[i] by {
        if i < cols {
            assert(g[i].len() == rows);
        }
        assert(grown[i] =~= want[i]);
    }
    assert(grown =~= want);
}

} // verus!
