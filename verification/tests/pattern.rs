use marching_squares::app::App;
use marching_squares::grid::Grid;
use marching_squares::pattern::{
    classify, BOTTOM_LEFT, BOTTOM_RIGHT, TOP_LEFT, TOP_RIGHT,
};
use marching_squares::shape::{primitives, Line, Primitive};

fn grid_with(rows: usize, cols: usize, on: &[(usize, usize)]) -> Grid {
    let mut grid = Grid::new(rows, cols).unwrap();
    for &(r, c) in on {
        grid.toggle(r, c);
    }
    grid
}

fn inverse_of(grid: &Grid) -> Grid {
    let mut inverse = Grid::new(grid.rows(), grid.cols()).unwrap();
    for r in 0..grid.rows() {
        for c in 0..grid.cols() {
            if !grid.get(r, c) {
                inverse.toggle(r, c);
            }
        }
    }
    inverse
}

#[test]
fn weights_are_eight_four_two_one() {
    assert_eq!((TOP_LEFT, TOP_RIGHT, BOTTOM_LEFT, BOTTOM_RIGHT), (8, 4, 2, 1));
}

#[test]
fn each_neighbour_adds_its_weight() {
    // lattice point (1, 1) is the middle of a grid of two by two cells
    assert_eq!(classify(&grid_with(2, 2, &[]), 1, 1), 0);
    assert_eq!(classify(&grid_with(2, 2, &[(0, 0)]), 1, 1), 8);
    assert_eq!(classify(&grid_with(2, 2, &[(0, 1)]), 1, 1), 4);
    assert_eq!(classify(&grid_with(2, 2, &[(1, 0)]), 1, 1), 2);
    assert_eq!(classify(&grid_with(2, 2, &[(1, 1)]), 1, 1), 1);
}

#[test]
fn every_pattern_has_its_code() {
    for code in 0..=15u8 {
        let mut on: Vec<(usize, usize)> = Vec::new();
        if code & 8 != 0 {
            on.push((0, 0));
        }
        if code & 4 != 0 {
            on.push((0, 1));
        }
        if code & 2 != 0 {
            on.push((1, 0));
        }
        if code & 1 != 0 {
            on.push((1, 1));
        }
        assert_eq!(classify(&grid_with(2, 2, &on), 1, 1), code);
    }
}

#[test]
fn glider_point_5_7_is_a_horizontal_segment() {
    let app = App::new();
    let grid = app.grid();
    assert!(!grid.get(4, 6));
    assert!(!grid.get(4, 7));
    assert!(grid.get(5, 6));
    assert!(grid.get(5, 7));
    let code: u8 = classify(grid, 5, 7);
    assert_eq!(code, 3);
    assert_eq!(primitives(code), vec![Primitive::Line(Line::Horizontal)]);
}

#[test]
fn glider_codes() {
    let app = App::new();
    let expected: [((usize, usize), u8); 13] = [
        ((3, 7), 1),
        ((3, 8), 2),
        ((4, 7), 4),
        ((4, 8), 9),
        ((4, 9), 2),
        ((5, 6), 1),
        ((5, 7), 3),
        ((5, 8), 7),
        ((5, 9), 10),
        ((6, 6), 4),
        ((6, 7), 12),
        ((6, 8), 12),
        ((6, 9), 8),
    ];
    for i in 0..=12usize {
        for j in 0..=16usize {
            let mut want: u8 = 0;
            for &((r, c), code) in expected.iter() {
                if (r, c) == (i, j) {
                    want = code;
                }
            }
            assert_eq!(classify(app.grid(), i, j), want);
        }
    }
}

#[test]
fn a_missing_side_adds_nothing() {
    // every cell on: whatever is missing from a code is missing from the grid
    let full = grid_with(2, 3, &[(0, 0), (0, 1), (0, 2), (1, 0), (1, 1), (1, 2)]);
    // upper edge: no 8, no 4
    assert_eq!(classify(&full, 0, 0), 1);
    assert_eq!(classify(&full, 0, 1), 3);
    assert_eq!(classify(&full, 0, 2), 3);
    assert_eq!(classify(&full, 0, 3), 2);
    // left edge: no 8, no 2; right edge: no 4, no 1
    assert_eq!(classify(&full, 1, 0), 5);
    assert_eq!(classify(&full, 1, 1), 15);
    assert_eq!(classify(&full, 1, 3), 10);
    // lower edge: no 2, no 1
    assert_eq!(classify(&full, 2, 0), 4);
    assert_eq!(classify(&full, 2, 1), 12);
    assert_eq!(classify(&full, 2, 3), 8);
}

#[test]
fn a_missing_side_adds_nothing_in_the_complement_either() {
    let grid = grid_with(3, 3, &[(0, 0), (1, 1), (2, 0), (0, 2)]);
    let inverse = inverse_of(&grid);
    for which in [&grid, &inverse] {
        for j in 0..=3usize {
            assert!(classify(which, 0, j) < 4);
            assert_eq!(classify(which, 3, j) % 4, 0);
        }
        for i in 0..=3usize {
            assert_eq!(classify(which, i, 0) & (8 | 2), 0);
            assert_eq!(classify(which, i, 3) & (4 | 1), 0);
        }
    }
}

#[test]
fn code_and_code_of_complement_add_up_to_the_mask() {
    let grid = grid_with(3, 4, &[(0, 0), (1, 1), (2, 0), (0, 2), (2, 3), (1, 3)]);
    let inverse = inverse_of(&grid);
    let full = inverse_of(&Grid::new(3, 4).unwrap());
    for i in 0..=3usize {
        for j in 0..=4usize {
            let mask: u8 = classify(&full, i, j);
            assert_eq!(classify(&grid, i, j) + classify(&inverse, i, j), mask);
            if 1 <= i && i < 3 && 1 <= j && j < 4 {
                assert_eq!(mask, 15);
            }
        }
    }
}

#[test]
fn beyond_the_lattice_every_code_is_zero() {
    let full = grid_with(2, 2, &[(0, 0), (0, 1), (1, 0), (1, 1)]);
    assert_eq!(classify(&full, 3, 1), 0);
    assert_eq!(classify(&full, 1, 3), 0);
    assert_eq!(classify(&full, 3, 3), 0);
    assert_eq!(classify(&full, usize::MAX, usize::MAX), 0);
    assert_eq!(classify(&full, usize::MAX, 1), 0);
    assert_eq!(classify(&full, 1, usize::MAX), 0);
}

#[test]
fn a_grid_without_cells_has_code_zero_everywhere() {
    let none = Grid::new(0, 0).unwrap();
    assert_eq!(classify(&none, 0, 0), 0);
    let no_rows = Grid::new(0, 3).unwrap();
    for j in 0..=3usize {
        assert_eq!(classify(&no_rows, 0, j), 0);
    }
}
