//! The pieces an outline is drawn from, and the table that says which pieces
//! stand at a lattice point with a given pattern code.

use vstd::prelude::*;

verus! {

/// A straight piece through a lattice point.
#[derive(Clone, Copy, Debug, PartialEq, Eq, Structural)]
pub enum Line {
    /// From left to right: the cells above differ from the cells below.
    Horizontal,
    /// From top to bottom: the cells on the left differ from those on the right.
    Vertical,
}

/// A rounded piece that cuts one of the four cells at a lattice point off
/// from the other three. It is named after the cell it cuts off.
#[derive(Clone, Copy, Debug, PartialEq, Eq, Structural)]
pub enum Corner {
    TopLeft,
    TopRight,
    LowerLeft,
    LowerRight,
}

/// One piece of an outline.
#[derive(Clone, Copy, Debug, PartialEq, Eq, Structural)]
pub enum Primitive {
    Corner(Corner),
    Line(Line),
}

/// The pieces that stand at a lattice point with pattern code `code`, in the
/// order in which they are drawn.
///
/// A code with one cell on, or one cell off, gives the corner at that cell.
/// Two cells on side by side give a horizontal line, two on top of each other a
/// vertical one. Two cells on across the diagonal give the corners at the two
/// cells that are off. No cell on, all four on, or a number that is no code:
/// nothing.
pub open spec fn primitives_for(code: int) -> Seq<Primitive> {
    if code == 1 || code == 14 {
        seq![Primitive::Corner(Corner::LowerRight)]
    } else if code == 2 || code == 13 {
        seq![Primitive::Corner(Corner::LowerLeft)]
    } else if code == 4 || code == 11 {
        seq![Primitive::Corner(Corner::TopRight)]
    } else if code == 8 || code == 7 {
        seq![Primitive::Corner(Corner::TopLeft)]
    } else if code == 10 || code == 5 {
        seq![Primitive::Line(Line::Vertical)]
    } else if code == 12 || code == 3 {
        seq![Primitive::Line(Line::Horizontal)]
    } else if code == 6 {
        seq![Primitive::Corner(Corner::LowerRight), Primitive::Corner(Corner::TopLeft)]
    } else if code == 9 {
        seq![Primitive::Corner(Corner::LowerLeft), Primitive::Corner(Corner::TopRight)]
    } else {
        Seq::empty()
    }
}

/// How many pieces a code stands for: none for 0, 15 and whatever is no code,
/// two for the diagonal codes 6 and 9, one for every other code.
pub proof fn lemma_piece_count(code: int)
    ensures
        primitives_for(code).len() == if code <= 0 || code >= 15 {
            0nat
        } else if code == 6 || code == 9 {
            2nat
        } else {
            1nat
        },
{
}

/// Only the diagonal codes draw two pieces, and those are corners; a line is
/// always alone at its lattice point.
pub proof fn lemma_lines_stand_alone(code: int, k: int)
    requires
        0 <= k < primitives_for(code).len(),
        primitives_for(code)[k] is Line,
    ensures
        primitives_for(code).len() == 1,
{
}

/// Outside the diagonal codes, a pattern and its complement have the same
/// outline: flipping all four cells of a lattice point leaves its pieces as
/// they are.
pub proof fn lemma_complement_keeps_pieces(code: int)
    requires
        0 <= code <= 15,
        code != 6,
        code != 9,
    ensures
        primitives_for(15 - code) == primitives_for(code),
{
}

/// The pieces to draw at a lattice point with pattern code `code`.
pub fn primitives(code: u8) -> (pieces: Vec<Primitive>)
    ensures
        pieces@ == primitives_for(code as int),
{
    let mut pieces: Vec<Primitive> = Vec::new();
    match code {
        1 | 14 => pieces.push(Primitive::Corner(Corner::LowerRight)),
        2 | 13 => pieces.push(Primitive::Corner(Corner::LowerLeft)),
        4 | 11 => pieces.push(Primitive::Corner(Corner::TopRight)),
        8 | 7 => pieces.push(Primitive::Corner(Corner::TopLeft)),
        10 | 5 => pieces.push(Primitive::Line(Line::Vertical)),
        12 | 3 => pieces.push(Primitive::Line(Line::Horizontal)),
        6 => {
            pieces.push(Primitive::Corner(Corner::LowerRight));
            pieces.push(Primitive::Corner(Corner::TopLeft));
        },
        9 => {
            pieces.push(Primitive::Corner(Corner::LowerLeft));
            pieces.push(Primitive::Corner(Corner::TopRight));
        },
        _ => (),
    }
    pieces
}

} // verus!
