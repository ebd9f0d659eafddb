//! From pixels to cells: which cell of a grid drawn with square cells of a
//! given size lies under a pixel.
//!
//! Pixel (0, 0) is the upper left corner of cell (0, 0); `x` grows to the
//! right and `y` downwards. Nothing is clamped: a pixel beyond the last row or
//! column gives a cell that the grid does not have.

use vstd::prelude::*;

verus! {

/// The place of a cell: its row and its column.
#[derive(Clone, Copy, Debug, PartialEq, Eq, Structural)]
pub struct Cell {
    pub row: usize,
    pub col: usize,
}

/// The row and the column of the cell under pixel (`x`, `y`), for cells of
/// `cell_size` pixels: each coordinate divided by the size, rounded down.
pub open spec fn cell_of_pixel(x: int, y: int, cell_size: int) -> (int, int) {
    (y / cell_size, x / cell_size)
}

/// The pixel at the upper left corner of cell (`row`, `col`), as (`x`, `y`).
pub open spec fn pixel_of_cell(row: int, col: int, cell_size: int) -> (int, int) {
    (col * cell_size, row * cell_size)
}

/// The pixel (`x`, `y`) lies in the square that cell (`row`, `col`) covers.
pub open spec fn within_cell(x: int, y: int, row: int, col: int, cell_size: int) -> bool {
    let (left, top) = pixel_of_cell(row, col, cell_size);
    left <= x < left + cell_size && top <= y < top + cell_size
}

/// Every pixel of the square that a cell covers is mapped to that cell.
pub proof fn lemma_pixel_within_cell(x: int, y: int, row: int, col: int, cell_size: int)
    requires
        cell_size > 0,
        within_cell(x, y, row, col, cell_size),
    ensures
        cell_of_pixel(x, y, cell_size) == (row, col),
{
    lemma_floor_quotient(x, col, cell_size);
    lemma_floor_quotient(y, row, cell_size);
}

/// The cell that a pixel is mapped to covers that pixel.
pub proof fn lemma_cell_covers_pixel(x: int, y: int, cell_size: int)
    requires
        cell_size > 0,
    ensures
        within_cell(
            x,
            y,
            cell_of_pixel(x, y, cell_size).0,
            cell_of_pixel(x, y, cell_size).1,
            cell_size,
        ),
{
    lemma_quotient_bounds(x, cell_size);
    lemma_quotient_bounds(y, cell_size);
}

/// The corner of a cell is mapped back to the cell.
pub proof fn lemma_cell_of_its_corner(row: int, col: int, cell_size: int)
    requires
        cell_size > 0,
    ensures
        cell_of_pixel(
            pixel_of_cell(row, col, cell_size).0,
            pixel_of_cell(row, col, cell_size).1,
            cell_size,
        ) == (row, col),
{
    lemma_pixel_within_cell(
        col * cell_size,
        row * cell_size,
        row,
        col,
        cell_size,
    );
}

/// A number between `q * d` and `(q + 1) * d` has the quotient `q`.
proof fn lemma_floor_quotient(n: int, q: int, d: int)
    requires
        d > 0,
        q * d <= n < q * d + d,
    ensures
        n / d == q,
{
    lemma_quotient_bounds(n, d);
    let p = n / d;
    if p < q {
        assert(p * d + d <= q * d) by (nonlinear_arith)
            requires
                p < q,
                d > 0,
        ;
    } else if p > q {
        assert(q * d + d <= p * d) by (nonlinear_arith)
            requires
                q < p,
                d > 0,
        ;
    }
}

/// A number lies between its quotient times the divisor and one divisor more.
proof fn lemma_quotient_bounds(n: int, d: int)
    requires
        d > 0,
    ensures
        (n / d) * d <= n < (n / d) * d + d,
{
    assert((n / d) * d + n % d == n && 0 <= n % d < d) by (nonlinear_arith)
        requires
            d > 0,
    ;
}

/// The cell under pixel (`x`, `y`) when cells are `cell_size` pixels wide and
/// high.
pub fn pixel_to_cell(x: u32, y: u32, cell_size: u32) -> (cell: Cell)
    requires
        cell_size > 0,
    ensures
        (cell.row as int, cell.col as int) == cell_of_pixel(x as int, y as int, cell_size as int),
        within_cell(x as int, y as int, cell.row as int, cell.col as int, cell_size as int),
{
    proof {
        lemma_cell_covers_pixel(x as int, y as int, cell_size as int);
    }
    Cell { row: (y / cell_size) as usize, col: (x / cell_size) as usize }
}

} // verus!
