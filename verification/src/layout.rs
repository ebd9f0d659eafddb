//! Where the pieces of an outline lie.
//!
//! Lengths are counted in half cells, so that every place that matters is a
//! whole number whatever the size of a cell in pixels: lattice point
//! (`i`, `j`) lies at `x = 2 * j`, `y = 2 * i`, the middle of cell
//! (`r`, `c`) at `x = 2 * c + 1`, `y = 2 * r + 1`. As on a screen, `x` grows to
//! the right and `y` downwards. The places of a piece are given relative to
//! its lattice point.
//!
//! Four grid lines leave a lattice point, one along each edge between two of
//! its cells. Each piece joins the middles of two of them, which lie one half
//! cell from the point. The laws below say that the pieces of a pattern code
//! cross exactly the edges whose two cells differ, so that an outline parts
//! the cells that are on from those that are off and never ends in mid-air.

use vstd::prelude::*;
use crate::grid::{is_on, rectangular};
use crate::pattern::{code_of, pattern_code};
use crate::shape::{primitives_for, Corner, Line, Primitive};

verus! {

/// One of the four edges that meet at a lattice point, named by the way it
/// leaves the point.
#[derive(Clone, Copy, Debug, PartialEq, Eq, Structural)]
pub enum Arm {
    /// Between the cell above left and the cell above right.
    Up,
    /// Between the cell above right and the cell below right.
    Right,
    /// Between the cell below left and the cell below right.
    Down,
    /// Between the cell above left and the cell below left.
    Left,
}

/// The middle of an arm, as (`x`, `y`) from the lattice point.
pub open spec fn arm_middle(arm: Arm) -> (int, int) {
    match arm {
        Arm::Up => (0, -1),
        Arm::Right => (1, 0),
        Arm::Down => (0, 1),
        Arm::Left => (-1, 0),
    }
}

/// The point of the unit circle after `quarter` quarter turns, counted from
/// the point on the right and turning towards the one below.
pub open spec fn quarter_point(quarter: int) -> (int, int) {
    let turns = quarter % 4;
    if turns == 0 {
        (1, 0)
    } else if turns == 1 {
        (0, 1)
    } else if turns == 2 {
        (-1, 0)
    } else {
        (0, -1)
    }
}

/// The middle of the cell that `corner` is named after, as (`x`, `y`) from
/// the lattice point. The arc of the corner lies on the circle of radius one
/// half cell around it.
pub open spec fn centre_of(corner: Corner) -> (int, int) {
    match corner {
        Corner::TopLeft => (-1, -1),
        Corner::TopRight => (1, -1),
        Corner::LowerLeft => (-1, 1),
        Corner::LowerRight => (1, 1),
    }
}

/// The quarter turn at which the arc of `corner` begins. It ends one quarter
/// turn later.
pub open spec fn quarter_of(corner: Corner) -> int {
    match corner {
        Corner::TopLeft => 0,
        Corner::TopRight => 1,
        Corner::LowerRight => 2,
        Corner::LowerLeft => 3,
    }
}

/// The two ends of `line`, each as (`x`, `y`) from the lattice point.
pub open spec fn line_ends(line: Line) -> ((int, int), (int, int)) {
    match line {
        Line::Horizontal => ((-1, 0), (1, 0)),
        Line::Vertical => ((0, -1), (0, 1)),
    }
}

/// The two ends of a piece, each as (`x`, `y`) from the lattice point: for a
/// line its ends, for a corner the points where its arc begins and ends.
pub open spec fn ends_of(piece: Primitive) -> ((int, int), (int, int)) {
    match piece {
        Primitive::Line(line) => line_ends(line),
        Primitive::Corner(corner) => {
            let (x, y) = centre_of(corner);
            let from = quarter_point(quarter_of(corner));
            let to = quarter_point(quarter_of(corner) + 1);
            ((x + from.0, y + from.1), (x + to.0, y + to.1))
        },
    }
}

/// The piece has an end in the middle of `arm`.
pub open spec fn touches(piece: Primitive, arm: Arm) -> bool {
    ends_of(piece).0 == arm_middle(arm) || ends_of(piece).1 == arm_middle(arm)
}

/// How many of `pieces` have an end in the middle of `arm`.
pub open spec fn crossings(pieces: Seq<Primitive>, arm: Arm) -> nat
    decreases pieces.len(),
{
    if pieces.len() == 0 {
        0
    } else {
        crossings(pieces.drop_last(), arm) + if touches(pieces.last(), arm) {
            1nat
        } else {
            0nat
        }
    }
}

/// The two cells on either side of `arm` at lattice point (`i`, `j`), each as
/// (row, column).
pub open spec fn cells_beside(arm: Arm, i: int, j: int) -> ((int, int), (int, int)) {
    match arm {
        Arm::Up => ((i - 1, j - 1), (i - 1, j)),
        Arm::Right => ((i - 1, j), (i, j)),
        Arm::Down => ((i, j - 1), (i, j)),
        Arm::Left => ((i - 1, j - 1), (i, j - 1)),
    }
}

/// The two cells on either side of `arm` at lattice point (`i`, `j`) differ:
/// one is on and the other is off.
pub open spec fn parted(cells: Seq<Seq<bool>>, arm: Arm, i: int, j: int) -> bool {
    let (a, b) = cells_beside(arm, i, j);
    is_on(cells, a.0, a.1) != is_on(cells, b.0, b.1)
}

/// Every piece joins the middles of two different arms: a corner the two arms
/// that bound its cell, a line the two arms it runs along.
pub proof fn lemma_piece_joins_two_arms(piece: Primitive)
    ensures
        piece == Primitive::Corner(Corner::TopLeft) ==> ends_of(piece) == (
            arm_middle(Arm::Up),
            arm_middle(Arm::Left),
        ),
        piece == Primitive::Corner(Corner::TopRight) ==> ends_of(piece) == (
            arm_middle(Arm::Right),
            arm_middle(Arm::Up),
        ),
        piece == Primitive::Corner(Corner::LowerRight) ==> ends_of(piece) == (
            arm_middle(Arm::Down),
            arm_middle(Arm::Right),
        ),
        piece == Primitive::Corner(Corner::LowerLeft) ==> ends_of(piece) == (
            arm_middle(Arm::Left),
            arm_middle(Arm::Down),
        ),
        piece == Primitive::Line(Line::Horizontal) ==> ends_of(piece) == (
            arm_middle(Arm::Left),
            arm_middle(Arm::Right),
        ),
        piece == Primitive::Line(Line::Vertical) ==> ends_of(piece) == (
            arm_middle(Arm::Up),
            arm_middle(Arm::Down),
        ),
        exists|a: Arm, b: Arm| a != b && ends_of(piece) == (arm_middle(a), arm_middle(b)),
{
    match piece {
        Primitive::Corner(Corner::TopLeft) => {
            assert(ends_of(piece) == (arm_middle(Arm::Up), arm_middle(Arm::Left)));
        },
        Primitive::Corner(Corner::TopRight) => {
            assert(ends_of(piece) == (arm_middle(Arm::Right), arm_middle(Arm::Up)));
        },
        Primitive::Corner(Corner::LowerRight) => {
            assert(ends_of(piece) == (arm_middle(Arm::Down), arm_middle(Arm::Right)));
        },
        Primitive::Corner(Corner::LowerLeft) => {
            assert(ends_of(piece) == (arm_middle(Arm::Left), arm_middle(Arm::Down)));
        },
        Primitive::Line(Line::Horizontal) => {
            assert(ends_of(piece) == (arm_middle(Arm::Left), arm_middle(Arm::Right)));
        },
        Primitive::Line(Line::Vertical) => {
            assert(ends_of(piece) == (arm_middle(Arm::Up), arm_middle(Arm::Down)));
        },
    }
}

/// The pieces of a pattern code cross an arm once if the two cells beside it
/// differ, and not at all if they are alike. This holds of all sixteen
/// patterns, whatever the four cells are.
pub proof fn lemma_pieces_cross_where_cells_differ(
    top_left: bool,
    top_right: bool,
    bottom_left: bool,
    bottom_right: bool,
)
    ensures
        crossings(
            primitives_for(code_of(top_left, top_right, bottom_left, bottom_right)),
            Arm::Up,
        ) == if top_left != top_right {
            1nat
        } else {
            0nat
        },
        crossings(
            primitives_for(code_of(top_left, top_right, bottom_left, bottom_right)),
            Arm::Right,
        ) == if top_right != bottom_right {
            1nat
        } else {
            0nat
        },
        crossings(
            primitives_for(code_of(top_left, top_right, bottom_left, bottom_right)),
            Arm::Down,
        ) == if bottom_left != bottom_right {
            1nat
        } else {
            0nat
        },
        crossings(
            primitives_for(code_of(top_left, top_right, bottom_left, bottom_right)),
            Arm::Left,
        ) == if top_left != bottom_left {
            1nat
        } else {
            0nat
        },
{
    let pieces = primitives_for(code_of(top_left, top_right, bottom_left, bottom_right));
    lemma_crossings_of_short(pieces, Arm::Up);
    lemma_crossings_of_short(pieces, Arm::Right);
    lemma_crossings_of_short(pieces, Arm::Down);
    lemma_crossings_of_short(pieces, Arm::Left);
}

/// The crossings of at most two pieces, written out.
proof fn lemma_crossings_of_short(pieces: Seq<Primitive>, arm: Arm)
    requires
        pieces.len() <= 2,
    ensures
        pieces.len() == 0 ==> crossings(pieces, arm) == 0,
        pieces.len() == 1 ==> crossings(pieces, arm) == if touches(pieces[0], arm) {
            1nat
        } else {
            0nat
        },
        pieces.len() == 2 ==> crossings(pieces, arm) == (if touches(pieces[0], arm) {
            1nat
        } else {
            0nat
        }) + (if touches(pieces[1], arm) {
            1nat
        } else {
            0nat
        }),
{
    reveal_with_fuel(crossings, 3);
    if pieces.len() == 2 {
        assert(pieces.drop_last().last() == pieces[0]);
    }
}

/// At every lattice point of every grid, the outline crosses an arm once if
/// the two cells beside it differ and not at all if they are alike.
pub proof fn lemma_outline_parts_cells(cells: Seq<Seq<bool>>, i: int, j: int, arm: Arm)
    ensures
        crossings(primitives_for(pattern_code(cells, i, j)), arm) == if parted(cells, arm, i, j) {
            1nat
        } else {
            0nat
        },
{
    lemma_pieces_cross_where_cells_differ(
        is_on(cells, i - 1, j - 1),
        is_on(cells, i - 1, j),
        is_on(cells, i, j - 1),
        is_on(cells, i, j),
    );
}

/// An outline never ends in mid-air. The edge between two neighbouring
/// lattice points is an arm of both, and the pieces of the one cross it as
/// often as the pieces of the other: what leaves a point to the right arrives
/// at the next point from the left, and what leaves it downwards arrives at
/// the point below from above.
pub proof fn lemma_pieces_meet(cells: Seq<Seq<bool>>, i: int, j: int)
    ensures
        crossings(primitives_for(pattern_code(cells, i, j)), Arm::Right) == crossings(
            primitives_for(pattern_code(cells, i, j + 1)),
            Arm::Left,
        ),
        crossings(primitives_for(pattern_code(cells, i, j)), Arm::Down) == crossings(
            primitives_for(pattern_code(cells, i + 1, j)),
            Arm::Up,
        ),
{
    lemma_outline_parts_cells(cells, i, j, Arm::Right);
    lemma_outline_parts_cells(cells, i, j + 1, Arm::Left);
    lemma_outline_parts_cells(cells, i, j, Arm::Down);
    lemma_outline_parts_cells(cells, i + 1, j, Arm::Up);
}

/// Nothing is drawn outside the grid. Both ends of every piece of a lattice
/// point lie in the rectangle that the grid covers, and the arc of a corner
/// lies in a cell that the grid has.
pub proof fn lemma_pieces_stay_inside(cells: Seq<Seq<bool>>, cols: nat, i: int, j: int, k: int)
    requires
        rectangular(cells, cols),
        0 <= k < primitives_for(pattern_code(cells, i, j)).len(),
    ensures
        ({
            let (from, to) = ends_of(primitives_for(pattern_code(cells, i, j))[k]);
            &&& 0 <= 2 * j + from.0 <= 2 * cols
            &&& 0 <= 2 * i + from.1 <= 2 * cells.len()
            &&& 0 <= 2 * j + to.0 <= 2 * cols
            &&& 0 <= 2 * i + to.1 <= 2 * cells.len()
        }),
        primitives_for(pattern_code(cells, i, j))[k] matches Primitive::Corner(corner) ==> {
            let (x, y) = centre_of(corner);
            &&& 0 <= 2 * j + x < 2 * cols
            &&& 0 <= 2 * i + y < 2 * cells.len()
        },
{
    if 0 <= i - 1 < cells.len() {
        assert(cells[i - 1].len() == cols);
    }
    if 0 <= i < cells.len() {
        assert(cells[i].len() == cols);
    }
}

impl Corner {
    /// The middle of the cell that the corner is named after, as (`x`, `y`)
    /// in half cells from the lattice point.
    pub fn centre(self) -> (at: (i8, i8))
        ensures
            (at.0 as int, at.1 as int) == centre_of(self),
    {
        match self {
            Corner::TopLeft => (-1, -1),
            Corner::TopRight => (1, -1),
            Corner::LowerLeft => (-1, 1),
            Corner::LowerRight => (1, 1),
        }
    }

    /// The quarter turn at which the arc begins, counted from the point on
    /// the right of the circle and turning towards the one below. The arc
    /// ends one quarter turn later.
    pub fn quarter(self) -> (quarter: u8)
        ensures
            quarter == quarter_of(self),
    {
        match self {
            Corner::TopLeft => 0,
            Corner::TopRight => 1,
            Corner::LowerRight => 2,
            Corner::LowerLeft => 3,
        }
    }
}

impl Line {
    /// The two ends of the line, each as (`x`, `y`) in half cells from the
    /// lattice point.
    pub fn ends(self) -> (ends: ((i8, i8), (i8, i8)))
        ensures
            ((ends.0.0 as int, ends.0.1 as int), (ends.1.0 as int, ends.1.1 as int)) == line_ends(
                self,
            ),
    {
        match self {
            Line::Horizontal => ((-1, 0), (1, 0)),
            Line::Vertical => ((0, -1), (0, 1)),
        }
    }
}

} // verus!
