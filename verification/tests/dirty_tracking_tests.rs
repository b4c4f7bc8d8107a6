use rin::{Cell, Grid};

#[test]
fn test_grid_initially_dirty() {
    let grid = Grid::new(80, 24);
    assert!(grid.has_dirty_rows());
    assert!(grid.is_row_dirty(0));
}

#[test]
fn test_clear_dirty() {
    let mut grid = Grid::new(80, 24);
    grid.clear_dirty();
    assert!(!grid.has_dirty_rows());
    assert!(!grid.is_row_dirty(0));
}

#[test]
fn test_set_marks_dirty() {
    let mut grid = Grid::new(80, 24);
    grid.clear_dirty();

    grid.set(5, 5, Cell::new('X')).unwrap();

    assert!(grid.is_row_dirty(5));
    assert!(!grid.is_row_dirty(0));
}

#[test]
fn test_get_mut_marks_dirty() {
    let mut grid = Grid::new(80, 24);
    grid.clear_dirty();

    if let Some(cell) = grid.get_mut(0, 10) {
        cell.character = 'Y';
    }

    assert!(grid.is_row_dirty(10));
}
