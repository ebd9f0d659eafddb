//! The outline of a whole grid: the pieces of every lattice point, row by row.
//!
//! A grid of `rows` by `cols` cells has `rows + 1` by `cols + 1` lattice
//! points. They are visited from the top row down, each row from left to
//! right, and each point hands in the pieces of its pattern code.

use vstd::prelude::*;
use crate::grid::{blank, Grid};
use crate::pattern::{classify, pattern_code};
use crate::shape::{primitives, primitives_for, Primitive};

verus! {

/// One piece of an outline and the lattice point it stands at.
#[derive(Clone, Copy, Debug, PartialEq, Eq, Structural)]
pub struct Stroke {
    pub shape: Primitive,
    pub row: usize,
    pub col: usize,
}

/// `pieces`, each placed at lattice point (`i`, `j`).
pub open spec fn placed(pieces: Seq<Primitive>, i: int, j: int) -> Seq<Stroke> {
    Seq::new(
        pieces.len(),
        |k: int| (Stroke { shape: pieces[k], row: i as usize, col: j as usize }),
    )
}

/// The strokes of lattice point (`i`, `j`).
pub open spec fn strokes_at(cells: Seq<Seq<bool>>, i: int, j: int) -> Seq<Stroke> {
    placed(primitives_for(pattern_code(cells, i, j)), i, j)
}

/// The strokes of the first `upto` lattice points of lattice row `i`.
pub open spec fn row_strokes(cells: Seq<Seq<bool>>, i: int, upto: nat) -> Seq<Stroke>
    decreases upto,
{
    if upto == 0 {
        Seq::empty()
    } else {
        row_strokes(cells, i, (upto - 1) as nat) + strokes_at(cells, i, upto - 1)
    }
}

/// The strokes of the first `upto` lattice rows of a grid with `cols` columns.
pub open spec fn rows_strokes(cells: Seq<Seq<bool>>, cols: nat, upto: nat) -> Seq<Stroke>
    decreases upto,
{
    if upto == 0 {
        Seq::empty()
    } else {
        rows_strokes(cells, cols, (upto - 1) as nat) + row_strokes(cells, upto - 1, cols + 1)
    }
}

/// The outline of a grid with `cols` columns: the strokes of all its lattice
/// points, in the order in which they are drawn.
pub open spec fn outline(cells: Seq<Seq<bool>>, cols: nat) -> Seq<Stroke> {
    rows_strokes(cells, cols, cells.len() + 1)
}

/// A value occurs in two sequences put end to end exactly if it occurs in one
/// of them.
proof fn lemma_joined_contains(front: Seq<Stroke>, back: Seq<Stroke>, s: Stroke)
    ensures
        (front + back).contains(s) <==> front.contains(s) || back.contains(s),
{
    let joined = front + back;
    if front.contains(s) {
        let k = choose|k: int| 0 <= k < front.len() && front[k] == s;
        assert(joined[k] == s);
    }
    if back.contains(s) {
        let k = choose|k: int| 0 <= k < back.len() && back[k] == s;
        assert(joined[front.len() + k] == s);
    }
    if joined.contains(s) {
        let k = choose|k: int| 0 <= k < joined.len() && joined[k] == s;
        if k < front.len() {
            assert(front[k] == s);
        } else {
            assert(back[k - front.len()] == s);
        }
    }
}

/// A stroke is among the first `upto` points' strokes of a lattice row
/// exactly if it is a stroke of one of those points.
proof fn lemma_row_strokes_contains(cells: Seq<Seq<bool>>, i: int, upto: nat, s: Stroke)
    ensures
        row_strokes(cells, i, upto).contains(s) <==> exists|j: int|
            0 <= j < upto && #[trigger] strokes_at(cells, i, j).contains(s),
    decreases upto,
{
    if upto > 0 {
        let before = (upto - 1) as nat;
        lemma_row_strokes_contains(cells, i, before, s);
        lemma_joined_contains(row_strokes(cells, i, before), strokes_at(cells, i, upto - 1), s);
    }
}

/// A stroke belongs to the outline of a grid exactly if it is one of the
/// strokes of one of the grid's lattice points.
pub proof fn lemma_outline_contains(cells: Seq<Seq<bool>>, cols: nat, s: Stroke)
    ensures
        outline(cells, cols).contains(s) <==> exists|i: int, j: int|
            0 <= i <= cells.len() && 0 <= j <= cols && #[trigger] strokes_at(cells, i, j).contains(
                s,
            ),
{
    lemma_rows_strokes_contains(cells, cols, cells.len() + 1, s);
}

/// A stroke is among the strokes of the first `upto` lattice rows exactly if
/// it is a stroke of a lattice point of one of those rows.
proof fn lemma_rows_strokes_contains(cells: Seq<Seq<bool>>, cols: nat, upto: nat, s: Stroke)
    ensures
        rows_strokes(cells, cols, upto).contains(s) <==> exists|i: int, j: int|
            0 <= i < upto && 0 <= j <= cols && #[trigger] strokes_at(cells, i, j).contains(s),
    decreases upto,
{
    if upto > 0 {
        let before = (upto - 1) as nat;
        lemma_rows_strokes_contains(cells, cols, before, s);
        lemma_row_strokes_contains(cells, upto - 1, cols + 1, s);
        lemma_joined_contains(
            rows_strokes(cells, cols, before),
            row_strokes(cells, upto - 1, cols + 1),
            s,
        );
    }
}

/// A grid with every cell off has no outline.
pub proof fn lemma_blank_has_no_outline(rows: nat, cols: nat)
    ensures
        outline(blank(rows, cols), cols) == Seq::<Stroke>::empty(),
{
    let cells = blank(rows, cols);
    assert forall|s: Stroke| !outline(cells, cols).contains(s) by {
        lemma_outline_contains(cells, cols, s);
        assert forall|i: int, j: int| !(#[trigger] strokes_at(cells, i, j)).contains(s) by {
            assert(pattern_code(cells, i, j) == 0);
        }
    }
    let all = outline(cells, cols);
    if all.len() > 0 {
        assert(all.contains(all[0]));
    }
    assert(all =~= Seq::<Stroke>::empty());
}

/// Adds the strokes of lattice point (`i`, `j`) to `out`.
fn push_strokes_at(grid: &Grid, i: usize, j: usize, out: &mut Vec<Stroke>)
    ensures
        final(out)@ == old(out)@ + strokes_at(grid@, i as int, j as int),
{
    let pieces: Vec<Primitive> = primitives(classify(grid, i, j));
    let ghost before = out@;
    let mut k: usize = 0;
    while k < pieces.len()
        invariant
            k <= pieces.len(),
            out@ == before + placed(pieces@, i as int, j as int).take(k as int),
        decreases pieces.len() - k,
    {
        out.push(Stroke { shape: pieces[k], row: i, col: j });
        k += 1;
    }
}

/// The outline of `grid`: one stroke for each piece of each lattice point,
/// from the top lattice row down and from left to right in each row.
pub fn contour(grid: &Grid) -> (strokes: Vec<Stroke>)
    ensures
        strokes@ == outline(grid@, grid.cols() as nat),
{
    let rows: usize = grid.rows();
    let cols: usize = grid.cols();
    let mut strokes: Vec<Stroke> = Vec::new();
    let mut i: usize = 0;
    loop
        invariant_except_break
            i <= rows,
            strokes@ == rows_strokes(grid@, cols as nat, i as nat),
        invariant
            rows == grid@.len(),
            cols == grid.cols(),
        ensures
            strokes@ == rows_strokes(grid@, cols as nat, (rows + 1) as nat),
        decreases rows - i,
    {
        let ghost above = strokes@;
        let mut j: usize = 0;
        loop
            invariant_except_break
                j <= cols,
                strokes@ == above + row_strokes(grid@, i as int, j as nat),
            ensures
                strokes@ == above + row_strokes(grid@, i as int, (cols + 1) as nat),
            decreases cols - j,
        {
            push_strokes_at(grid, i, j, &mut strokes);
            if j == cols {
                break ;
            }
            j += 1;
        }
        if i == rows {
            break ;
        }
        i += 1;
    }
    strokes
}

} // verus!
