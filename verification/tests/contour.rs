use marching_squares::app::App;
use marching_squares::contour::{contour, Stroke};
use marching_squares::grid::Grid;
use marching_squares::shape::{Corner, Line, Primitive};

fn grid_of(rows: usize, cols: usize, on: &[(usize, usize)]) -> Grid {
    let mut grid = Grid::new(rows, cols).unwrap();
    for &(r, c) in on {
        grid.toggle(r, c);
    }
    grid
}

fn corner(which: Corner, row: usize, col: usize) -> Stroke {
    Stroke { shape: Primitive::Corner(which), row, col }
}

fn line(which: Line, row: usize, col: usize) -> Stroke {
    Stroke { shape: Primitive::Line(which), row, col }
}

#[test]
fn blank_grid_has_no_outline() {
    assert_eq!(contour(&Grid::new(12, 16).unwrap()), vec![]);
    assert_eq!(contour(&Grid::new(1, 1).unwrap()), vec![]);
}

#[test]
fn grid_without_cells_has_no_outline() {
    assert_eq!(contour(&Grid::new(0, 0).unwrap()), vec![]);
    assert_eq!(contour(&Grid::new(0, 7).unwrap()), vec![]);
    assert_eq!(contour(&Grid::new(7, 0).unwrap()), vec![]);
}

#[test]
fn single_cell_is_outlined_by_four_corners() {
    assert_eq!(
        contour(&grid_of(1, 1, &[(0, 0)])),
        vec![
            corner(Corner::LowerRight, 0, 0),
            corner(Corner::LowerLeft, 0, 1),
            corner(Corner::TopRight, 1, 0),
            corner(Corner::TopLeft, 1, 1),
        ]
    );
}

#[test]
fn two_cells_side_by_side_are_joined_by_horizontal_lines() {
    assert_eq!(
        contour(&grid_of(1, 2, &[(0, 0), (0, 1)])),
        vec![
            corner(Corner::LowerRight, 0, 0),
            line(Line::Horizontal, 0, 1),
            corner(Corner::LowerLeft, 0, 2),
            corner(Corner::TopRight, 1, 0),
            line(Line::Horizontal, 1, 1),
            corner(Corner::TopLeft, 1, 2),
        ]
    );
}

#[test]
fn two_cells_on_top_of_each_other_are_joined_by_vertical_lines() {
    assert_eq!(
        contour(&grid_of(2, 1, &[(0, 0), (1, 0)])),
        vec![
            corner(Corner::LowerRight, 0, 0),
            corner(Corner::LowerLeft, 0, 1),
            line(Line::Vertical, 1, 0),
            line(Line::Vertical, 1, 1),
            corner(Corner::TopRight, 2, 0),
            corner(Corner::TopLeft, 2, 1),
        ]
    );
}

#[test]
fn cells_across_the_rising_diagonal_draw_two_corners_between_them() {
    assert_eq!(
        contour(&grid_of(2, 2, &[(0, 1), (1, 0)])),
        vec![
            corner(Corner::LowerRight, 0, 1),
            corner(Corner::LowerLeft, 0, 2),
            corner(Corner::LowerRight, 1, 0),
            corner(Corner::LowerRight, 1, 1),
            corner(Corner::TopLeft, 1, 1),
            corner(Corner::TopLeft, 1, 2),
            corner(Corner::TopRight, 2, 0),
            corner(Corner::TopLeft, 2, 1),
        ]
    );
}

#[test]
fn cells_across_the_falling_diagonal_draw_two_corners_between_them() {
    assert_eq!(
        contour(&grid_of(2, 2, &[(0, 0), (1, 1)])),
        vec![
            corner(Corner::LowerRight, 0, 0),
            corner(Corner::LowerLeft, 0, 1),
            corner(Corner::TopRight, 1, 0),
            corner(Corner::LowerLeft, 1, 1),
            corner(Corner::TopRight, 1, 1),
            corner(Corner::LowerLeft, 1, 2),
            corner(Corner::TopRight, 2, 1),
            corner(Corner::TopLeft, 2, 2),
        ]
    );
}

#[test]
fn three_cells_on_draw_the_corner_of_the_fourth() {
    let strokes = contour(&grid_of(2, 2, &[(0, 0), (0, 1), (1, 0)]));
    assert!(strokes.contains(&corner(Corner::LowerRight, 1, 1)));
    assert_eq!(strokes.iter().filter(|s| (s.row, s.col) == (1, 1)).count(), 1);
}

#[test]
fn full_grid_is_outlined_along_its_border_only() {
    let mut all: Vec<(usize, usize)> = Vec::new();
    for r in 0..3usize {
        for c in 0..4usize {
            all.push((r, c));
        }
    }
    let strokes = contour(&grid_of(3, 4, &all));
    for s in strokes.iter() {
        assert!(s.row == 0 || s.row == 3 || s.col == 0 || s.col == 4);
    }
    // four corners, and one line for each other lattice point of the border
    assert_eq!(strokes.len(), 4 + 2 * 3 + 2 * 2);
}

#[test]
fn glider_outline() {
    let app = App::new();
    assert_eq!(
        contour(app.grid()),
        vec![
            corner(Corner::LowerRight, 3, 7),
            corner(Corner::LowerLeft, 3, 8),
            corner(Corner::TopRight, 4, 7),
            corner(Corner::LowerLeft, 4, 8),
            corner(Corner::TopRight, 4, 8),
            corner(Corner::LowerLeft, 4, 9),
            corner(Corner::LowerRight, 5, 6),
            line(Line::Horizontal, 5, 7),
            corner(Corner::TopLeft, 5, 8),
            line(Line::Vertical, 5, 9),
            corner(Corner::TopRight, 6, 6),
            line(Line::Horizontal, 6, 7),
            line(Line::Horizontal, 6, 8),
            corner(Corner::TopLeft, 6, 9),
        ]
    );
}

#[test]
fn outline_reaches_the_last_lattice_row_and_column() {
    let strokes = contour(&grid_of(2, 3, &[(1, 2)]));
    assert_eq!(
        strokes,
        vec![
            corner(Corner::LowerRight, 1, 2),
            corner(Corner::LowerLeft, 1, 3),
            corner(Corner::TopRight, 2, 2),
            corner(Corner::TopLeft, 2, 3),
        ]
    );
}
