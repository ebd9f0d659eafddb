use marching_squares::grid::Grid;

fn cells_of(grid: &Grid) -> Vec<Vec<bool>> {
    let mut rows: Vec<Vec<bool>> = Vec::new();
    for r in 0..grid.rows() {
        let mut row: Vec<bool> = Vec::new();
        for c in 0..grid.cols() {
            row.push(grid.get(r, c));
        }
        rows.push(row);
    }
    rows
}

#[test]
fn new_grid_is_blank() {
    let grid = Grid::new(3, 4).unwrap();
    assert_eq!(grid.rows(), 3);
    assert_eq!(grid.cols(), 4);
    assert_eq!(cells_of(&grid), vec![vec![false; 4]; 3]);
}

#[test]
fn new_grid_may_have_no_cells() {
    let none = Grid::new(0, 0).unwrap();
    assert_eq!((none.rows(), none.cols()), (0, 0));
    let no_rows = Grid::new(0, 5).unwrap();
    assert_eq!((no_rows.rows(), no_rows.cols()), (0, 5));
    let no_cols = Grid::new(5, 0).unwrap();
    assert_eq!((no_cols.rows(), no_cols.cols()), (5, 0));
    assert!(!no_cols.get(0, 0));
}

#[test]
fn new_grid_too_large_to_count_is_refused() {
    assert!(Grid::new(usize::MAX, 2).is_none());
    assert!(Grid::new(2, usize::MAX).is_none());
    assert!(Grid::new(usize::MAX / 2 + 1, 2).is_none());
    assert!(Grid::new(usize::MAX, 0).is_some());
    assert!(Grid::new(0, usize::MAX).is_some());
}

#[test]
fn toggle_flips_one_cell() {
    let mut grid = Grid::new(3, 4).unwrap();
    grid.toggle(1, 2);
    let mut expected = vec![vec![false; 4]; 3];
    expected[1][2] = true;
    assert_eq!(cells_of(&grid), expected);
    assert!(grid.get(1, 2));
    assert!(!grid.get(2, 1));
}

#[test]
fn toggle_reaches_every_cell() {
    for r in 0..3usize {
        for c in 0..4usize {
            let mut grid = Grid::new(3, 4).unwrap();
            grid.toggle(r, c);
            let mut expected = vec![vec![false; 4]; 3];
            expected[r][c] = true;
            assert_eq!(cells_of(&grid), expected);
        }
    }
}

#[test]
fn toggle_twice_restores_the_cell() {
    let mut grid = Grid::new(3, 4).unwrap();
    grid.toggle(0, 3);
    grid.toggle(2, 0);
    let before = cells_of(&grid);
    for r in 0..3usize {
        for c in 0..4usize {
            let was: bool = grid.get(r, c);
            grid.toggle(r, c);
            assert_eq!(grid.get(r, c), !was);
            grid.toggle(r, c);
            assert_eq!(grid.get(r, c), was);
            assert_eq!(cells_of(&grid), before);
        }
    }
}

#[test]
fn toggle_outside_the_grid_changes_nothing() {
    let mut grid = Grid::new(3, 4).unwrap();
    grid.toggle(1, 1);
    let before = cells_of(&grid);
    grid.toggle(3, 0);
    grid.toggle(0, 4);
    grid.toggle(3, 4);
    grid.toggle(usize::MAX, usize::MAX);
    // one past the end of row 0 is the first cell of row 1 in a flat layout
    grid.toggle(0, 5);
    assert_eq!(cells_of(&grid), before);
    assert_eq!((grid.rows(), grid.cols()), (3, 4));
}

#[test]
fn get_outside_the_grid_is_off() {
    let mut grid = Grid::new(2, 2).unwrap();
    for r in 0..2usize {
        for c in 0..2usize {
            grid.toggle(r, c);
        }
    }
    assert!(grid.get(1, 1));
    assert!(!grid.get(2, 0));
    assert!(!grid.get(0, 2));
    assert!(!grid.get(0, 3));
    assert!(!grid.get(usize::MAX, 0));
    assert!(!grid.get(0, usize::MAX));
}
