//! The pattern code of a lattice point: which of the up to four cells that
//! meet there are on.
//!
//! Lattice point (`i`, `j`) is the upper left corner of cell (`i`, `j`). The
//! cells that meet there are (`i - 1`, `j - 1`) above left, (`i - 1`, `j`)
//! above right, (`i`, `j - 1`) below left and (`i`, `j`) below right.

use vstd::prelude::*;
use crate::grid::{complement, has_cell, is_on, rectangular, Grid};

verus! {

/// What the cell above left of a lattice point adds to its code when on.
pub const TOP_LEFT: u8 = 8;

/// What the cell above right of a lattice point adds to its code when on.
pub const TOP_RIGHT: u8 = 4;

/// What the cell below left of a lattice point adds to its code when on.
pub const BOTTOM_LEFT: u8 = 2;

/// What the cell below right of a lattice point adds to its code when on.
pub const BOTTOM_RIGHT: u8 = 1;

/// `weight` if `on`, else nothing.
pub open spec fn weigh(on: bool, weight: int) -> int {
    if on {
        weight
    } else {
        0
    }
}

/// The code of four cells around a point, given whether each is on.
pub open spec fn code_of(
    top_left: bool,
    top_right: bool,
    bottom_left: bool,
    bottom_right: bool,
) -> int {
    weigh(top_left, TOP_LEFT as int) + weigh(top_right, TOP_RIGHT as int) + weigh(
        bottom_left,
        BOTTOM_LEFT as int,
    ) + weigh(bottom_right, BOTTOM_RIGHT as int)
}

/// The pattern code of lattice point (`i`, `j`): the weights of those of its
/// four cells that are on. A cell that the grid does not have counts as off.
pub open spec fn pattern_code(cells: Seq<Seq<bool>>, i: int, j: int) -> int {
    code_of(
        is_on(cells, i - 1, j - 1),
        is_on(cells, i - 1, j),
        is_on(cells, i, j - 1),
        is_on(cells, i, j),
    )
}

/// The code that lattice point (`i`, `j`) would have with every cell on:
/// the weights of those of its four cells that the grid has.
pub open spec fn neighbour_mask(cells: Seq<Seq<bool>>, i: int, j: int) -> int {
    code_of(
        has_cell(cells, i - 1, j - 1),
        has_cell(cells, i - 1, j),
        has_cell(cells, i, j - 1),
        has_cell(cells, i, j),
    )
}

/// Every pattern code lies between 0 and 15.
pub proof fn lemma_code_range(cells: Seq<Seq<bool>>, i: int, j: int)
    ensures
        0 <= pattern_code(cells, i, j) <= neighbour_mask(cells, i, j) <= 15,
{
}

/// A side of a lattice point on which the grid has no cells adds nothing to
/// the code: on the upper edge the two upper weights are missing, on the
/// lower edge the two lower ones, and likewise left and right. The same holds
/// of the complement of the grid, so a missing cell never counts as on.
pub proof fn lemma_missing_side_adds_nothing(cells: Seq<Seq<bool>>, cols: nat, i: int, j: int)
    requires
        rectangular(cells, cols),
    ensures
        i <= 0 ==> pattern_code(cells, i, j) == code_of(
            false,
            false,
            is_on(cells, i, j - 1),
            is_on(cells, i, j),
        ),
        i >= cells.len() ==> pattern_code(cells, i, j) == code_of(
            is_on(cells, i - 1, j - 1),
            is_on(cells, i - 1, j),
            false,
            false,
        ),
        j <= 0 ==> pattern_code(cells, i, j) == code_of(
            false,
            is_on(cells, i - 1, j),
            false,
            is_on(cells, i, j),
        ),
        j >= cols ==> pattern_code(cells, i, j) == code_of(
            is_on(cells, i - 1, j - 1),
            false,
            is_on(cells, i, j - 1),
            false,
        ),
        i <= 0 ==> pattern_code(complement(cells), i, j) == code_of(
            false,
            false,
            is_on(complement(cells), i, j - 1),
            is_on(complement(cells), i, j),
        ),
        i >= cells.len() ==> pattern_code(complement(cells), i, j) == code_of(
            is_on(complement(cells), i - 1, j - 1),
            is_on(complement(cells), i - 1, j),
            false,
            false,
        ),
        j <= 0 ==> pattern_code(complement(cells), i, j) == code_of(
            false,
            is_on(complement(cells), i - 1, j),
            false,
            is_on(complement(cells), i, j),
        ),
        j >= cols ==> pattern_code(complement(cells), i, j) == code_of(
            is_on(complement(cells), i - 1, j - 1),
            false,
            is_on(complement(cells), i, j - 1),
            false,
        ),
{
    let inverse = complement(cells);
    assert(inverse.len() == cells.len());
    if 0 <= i - 1 < cells.len() {
        assert(cells[i - 1].len() == cols);
        assert(inverse[i - 1].len() == cols);
    }
    if 0 <= i < cells.len() {
        assert(cells[i].len() == cols);
        assert(inverse[i].len() == cols);
    }
}

/// Flipping every cell turns each code into what is left of the mask of the
/// cells that exist: the code of a grid and the code of its complement add up
/// to that mask. Away from the edges the mask is 15.
pub proof fn lemma_complement_code(cells: Seq<Seq<bool>>, i: int, j: int)
    ensures
        pattern_code(cells, i, j) + pattern_code(complement(cells), i, j) == neighbour_mask(
            cells,
            i,
            j,
        ),
        1 <= i < cells.len() && 1 <= j < cells[i - 1].len() && j < cells[i].len()
            ==> pattern_code(complement(cells), i, j) == 15 - pattern_code(cells, i, j),
{
    let inverse = complement(cells);
    assert forall|r: int, c: int| is_on(inverse, r, c) == (has_cell(cells, r, c) && !is_on(
        cells,
        r,
        c,
    )) by {}
}

/// The pattern code of lattice point (`i`, `j`) of `grid`. A cell is looked
/// at only where the grid has one, so any `i` and `j` may be asked.
pub fn classify(grid: &Grid, i: usize, j: usize) -> (code: u8)
    ensures
        code == pattern_code(grid@, i as int, j as int),
        code <= 15,
{
    let rows: usize = grid.rows();
    let cols: usize = grid.cols();
    let mut value: u8 = 0;
    if i > 0 {
        if j > 0 && grid.get(i - 1, j - 1) {
            value += TOP_LEFT;
        }
        if j < cols && grid.get(i - 1, j) {
            value += TOP_RIGHT;
        }
    }
    if i < rows {
        if j > 0 && grid.get(i, j - 1) {
            value += BOTTOM_LEFT;
        }
        if j < cols && grid.get(i, j) {
            value += BOTTOM_RIGHT;
        }
    }
    value
}

} // verus!
