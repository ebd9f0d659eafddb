//! The boolean grid: a fixed rectangle of cells, each on or off.
//!
//! The mathematical picture of a grid is a sequence of rows, each a sequence
//! of booleans, together with the number of columns (which the rows alone do
//! not tell when there are none).

use vstd::prelude::*;

verus! {

/// Every row of `cells` holds exactly `cols` cells.
pub open spec fn rectangular(cells: Seq<Seq<bool>>, cols: nat) -> bool {
    forall|r: int| 0 <= r < cells.len() ==> (#[trigger] cells[r]).len() == cols
}

/// The position (`r`, `c`) names a cell of the grid.
pub open spec fn has_cell(cells: Seq<Seq<bool>>, r: int, c: int) -> bool {
    0 <= r < cells.len() && 0 <= c < cells[r].len()
}

/// Cell (`r`, `c`) exists and is on. A position outside the grid counts as off.
pub open spec fn is_on(cells: Seq<Seq<bool>>, r: int, c: int) -> bool {
    has_cell(cells, r, c) && cells[r][c]
}

/// The grid of `rows` by `cols` cells in which every cell is off.
pub open spec fn blank(rows: nat, cols: nat) -> Seq<Seq<bool>> {
    Seq::new(rows, |r: int| Seq::new(cols, |c: int| false))
}

/// `cells` with cell (`r`, `c`) flipped; `cells` itself where there is no such cell.
pub open spec fn toggled(cells: Seq<Seq<bool>>, r: int, c: int) -> Seq<Seq<bool>> {
    if has_cell(cells, r, c) {
        cells.update(r, cells[r].update(c, !cells[r][c]))
    } else {
        cells
    }
}

/// `cells` with every cell flipped.
pub open spec fn complement(cells: Seq<Seq<bool>>) -> Seq<Seq<bool>> {
    Seq::new(cells.len(), |r: int| Seq::new(cells[r].len(), |c: int| !cells[r][c]))
}

/// Flipping the same cell twice gives back the grid one started from,
/// whether or not the cell exists.
pub proof fn lemma_toggle_twice(cells: Seq<Seq<bool>>, r: int, c: int)
    ensures
        toggled(toggled(cells, r, c), r, c) == cells,
{
    if has_cell(cells, r, c) {
        let once = toggled(cells, r, c);
        assert(once[r] == cells[r].update(c, !cells[r][c]));
        assert(once[r].update(c, !once[r][c]) =~= cells[r]);
        assert(toggled(once, r, c) =~= cells);
    }
}

/// Flipping a cell changes that cell and no other, and keeps the shape.
pub proof fn lemma_toggle_touches_one_cell(cells: Seq<Seq<bool>>, r: int, c: int, cols: nat)
    requires
        rectangular(cells, cols),
    ensures
        toggled(cells, r, c).len() == cells.len(),
        rectangular(toggled(cells, r, c), cols),
        forall|i: int, j: int|
            has_cell(toggled(cells, r, c), i, j) == has_cell(cells, i, j),
        forall|i: int, j: int|
            is_on(toggled(cells, r, c), i, j) == if i == r && j == c && has_cell(cells, r, c) {
                !is_on(cells, i, j)
            } else {
                is_on(cells, i, j)
            },
{
    let after = toggled(cells, r, c);
    assert forall|i: int| 0 <= i < after.len() implies (#[trigger] after[i]).len() == cols by {
        assert(cells[i].len() == cols);
    }
    assert forall|i: int, j: int| has_cell(after, i, j) == has_cell(cells, i, j) by {
        if 0 <= i < cells.len() {
            assert(cells[i].len() == cols);
            assert(after[i].len() == cols);
        }
    }
}

/// Where row `r`, column `c` of a grid with `cols` columns lies when the
/// rows are laid end to end.
spec fn row_major(cols: int, r: int, c: int) -> int {
    r * cols + c
}

/// The place of a cell in the rows laid end to end is inside the storage.
proof fn lemma_row_major_index(rows: int, cols: int, r: int, c: int)
    requires
        0 <= r < rows,
        0 <= c < cols,
    ensures
        0 <= r * cols <= row_major(cols, r, c) < rows * cols,
{
    assert(r * cols + cols <= rows * cols) by (nonlinear_arith)
        requires
            0 <= r < rows,
            0 <= cols,
    ;
    assert(0 <= r * cols) by (nonlinear_arith)
        requires
            0 <= r,
            0 <= cols,
    ;
}

/// Two cells of one grid lie at the same place only if they are the same cell.
proof fn lemma_row_major_distinct(cols: int, r1: int, c1: int, r2: int, c2: int)
    requires
        0 <= c1 < cols,
        0 <= c2 < cols,
        row_major(cols, r1, c1) == row_major(cols, r2, c2),
    ensures
        r1 == r2,
        c1 == c2,
{
    if r1 < r2 {
        assert(r1 * cols + cols <= r2 * cols) by (nonlinear_arith)
            requires
                r1 < r2,
                0 <= cols,
        ;
    } else if r2 < r1 {
        assert(r2 * cols + cols <= r1 * cols) by (nonlinear_arith)
            requires
                r2 < r1,
                0 <= cols,
        ;
    }
}

/// A rectangle of cells whose size is fixed when it is made.
pub struct Grid {
    rows: usize,
    cols: usize,
    /// The rows laid end to end.
    cells: Vec<bool>,
}

impl View for Grid {
    type V = Seq<Seq<bool>>;

    closed spec fn view(&self) -> Seq<Seq<bool>> {
        Seq::new(
            self.rows as nat,
            |r: int|
                Seq::new(
                    self.cols as nat,
                    |c: int| self.cells@[row_major(self.cols as int, r, c)],
                ),
        )
    }
}

impl Grid {
    #[verifier::type_invariant]
    spec fn well_formed(self) -> bool {
        self.cells@.len() == self.rows * self.cols <= usize::MAX
    }

    /// The number of rows.
    pub closed spec fn spec_rows(&self) -> usize {
        self.rows
    }

    /// The number of columns.
    pub closed spec fn spec_cols(&self) -> usize {
        self.cols
    }

    /// The view of a grid has the grid's shape.
    pub proof fn lemma_shape(&self)
        ensures
            self@.len() == self.rows(),
            rectangular(self@, self.cols() as nat),
    {
    }

    /// A grid of `rows` by `cols` cells, all off; `None` when that many cells
    /// cannot be counted in a `usize`.
    pub fn new(rows: usize, cols: usize) -> (grid: Option<Grid>)
        ensures
            grid is Some <==> rows * cols <= usize::MAX,
            grid matches Some(g) ==> g@ == blank(rows as nat, cols as nat) && g.rows() == rows
                && g.cols() == cols,
    {
        match rows.checked_mul(cols) {
            None => None,
            Some(n) => {
                let cells: Vec<bool> = vec![false; n];
                let g = Grid { rows, cols, cells };
                proof {
                    assert forall|r: int, c: int|
                        0 <= r < rows && 0 <= c < cols implies !g.cells@[#[trigger] row_major(
                        cols as int,
                        r,
                        c,
                    )] by {
                        lemma_row_major_index(rows as int, cols as int, r, c);
                    }
                    assert(g@ =~~= blank(rows as nat, cols as nat));
                }
                Some(g)
            },
        }
    }

    /// The number of rows.
    #[verifier::when_used_as_spec(spec_rows)]
    pub fn rows(&self) -> (n: usize)
        ensures
            n == self.rows(),
            n == self@.len(),
    {
        self.rows
    }

    /// The number of columns.
    #[verifier::when_used_as_spec(spec_cols)]
    pub fn cols(&self) -> (n: usize)
        ensures
            n == self.cols(),
            rectangular(self@, n as nat),
    {
        self.cols
    }

    /// Whether cell (`row`, `col`) is on; `false` for a position outside the grid.
    pub fn get(&self, row: usize, col: usize) -> (on: bool)
        ensures
            on == is_on(self@, row as int, col as int),
    {
        proof {
            use_type_invariant(self);
        }
        if row < self.rows && col < self.cols {
            proof {
                lemma_row_major_index(self.rows as int, self.cols as int, row as int, col as int);
            }
            self.cells[row * self.cols + col]
        } else {
            false
        }
    }

    /// Flips cell (`row`, `col`). A position outside the grid is ignored:
    /// the grid stays as it was.
    pub fn toggle(&mut self, row: usize, col: usize)
        ensures
            final(self)@ == toggled(old(self)@, row as int, col as int),
            final(self).rows() == old(self).rows(),
            final(self).cols() == old(self).cols(),
    {
        proof {
            use_type_invariant(&*self);
        }
        if row < self.rows && col < self.cols {
            proof {
                lemma_row_major_index(self.rows as int, self.cols as int, row as int, col as int);
            }
            let at: usize = row * self.cols + col;
            let was: bool = self.cells[at];
            self.cells[at] = !was;
            proof {
                let cols = self.cols as int;
                assert forall|r: int, c: int| 0 <= r < self.rows && 0 <= c < cols implies (
                #[trigger] row_major(cols, r, c) == at <==> r == row && c == col) by {
                    lemma_row_major_index(self.rows as int, cols, r, c);
                    if row_major(cols, r, c) == at {
                        lemma_row_major_distinct(cols, r, c, row as int, col as int);
                    }
                }
                let before = old(self)@;
                let after = toggled(before, row as int, col as int);
                assert forall|r: int| 0 <= r < self.rows implies #[trigger] self@[r] == after[r] by {
                    assert forall|c: int| 0 <= c < cols implies self@[r][c] == after[r][c] by {
                        lemma_row_major_index(self.rows as int, cols, r, c);
                    }
                    assert(self@[r] =~= after[r]);
                }
                assert(self@ =~= after);
            }
        }
    }
}

} // verus!
