use fluid_simulation::grid::Grid;
use std::cell::RefCell;

#[test]
fn new_grid_holds_default_values() {
    let grid: Grid<u32> = Grid::new(3, 2);
    assert_eq!(grid.width(), 3);
    assert_eq!(grid.height(), 2);
    for y in 0..2 {
        for x in 0..3 {
            assert_eq!(grid.get(x, y), Some(&0));
        }
    }
}

#[test]
fn get_outside_the_grid_is_none() {
    let grid: Grid<u8> = Grid::new(3, 2);
    assert_eq!(grid.get(3, 0), None);
    assert_eq!(grid.get(0, 2), None);
    assert_eq!(grid.get(usize::MAX, usize::MAX), None);
}

#[test]
fn set_then_get_reads_the_written_value() {
    let mut grid: Grid<i64> = Grid::new(4, 3);
    assert_eq!(grid.set(2, 1, -7), Some(()));
    assert_eq!(grid.get(2, 1), Some(&-7));
    assert_eq!(grid.get(1, 2), Some(&0));
    assert_eq!(grid.get(2, 0), Some(&0));
}

#[test]
fn set_outside_the_grid_changes_nothing() {
    let mut grid: Grid<i64> = Grid::new(2, 2);
    assert_eq!(grid.set(2, 0, 5), None);
    assert_eq!(grid.set(0, 2, 5), None);
    for y in 0..2 {
        for x in 0..2 {
            assert_eq!(grid.get(x, y), Some(&0));
        }
    }
}

#[test]
fn get_mut_writes_through() {
    let mut grid: Grid<u16> = Grid::new(2, 2);
    if let Some(cell) = grid.get_mut(1, 1) {
        *cell = 9;
    }
    assert_eq!(grid.get(1, 1), Some(&9));
    assert_eq!(grid.get(0, 1), Some(&0));
    assert!(grid.get_mut(2, 1).is_none());
}

#[test]
fn unchecked_access_reads_and_writes_the_cell() {
    let mut grid: Grid<u16> = Grid::new(3, 3);
    *grid.get_unchecked_mut(2, 1) = 4;
    assert_eq!(*grid.get_unchecked(2, 1), 4);
    assert_eq!(*grid.get_unchecked(1, 2), 0);
}

#[test]
fn set_all_changes_every_cell() {
    let mut grid: Grid<u8> = Grid::new(3, 2);
    grid.set_all(5);
    for y in 0..2 {
        for x in 0..3 {
            assert_eq!(grid.get(x, y), Some(&5));
        }
    }
}

#[test]
fn set_all_with_calls_the_filler_for_each_cell() {
    let mut grid: Grid<u8> = Grid::new(2, 2);
    grid.set(0, 0, 3);
    grid.set_all_with(|| 8);
    for y in 0..2 {
        for x in 0..2 {
            assert_eq!(grid.get(x, y), Some(&8));
        }
    }
}

#[test]
fn for_each_visits_cells_in_row_major_order_with_coordinates() {
    let grid = Grid::from(vec![vec![1u8, 2, 3], vec![4, 5, 6]]);
    let visited = RefCell::new(Vec::new());
    grid.for_each(|value, coords| visited.borrow_mut().push((*value, coords)));
    assert_eq!(
        visited.into_inner(),
        vec![
            (1, (0, 0)),
            (2, (1, 0)),
            (3, (2, 0)),
            (4, (0, 1)),
            (5, (1, 1)),
            (6, (2, 1)),
        ]
    );
}

#[test]
fn for_each_mut_replaces_each_cell() {
    let mut grid = Grid::from(vec![vec![1u32, 2], vec![3, 4]]);
    grid.for_each_mut(|value, (x, y)| *value * 10 + (x as u32) + 100 * (y as u32));
    assert_eq!(grid.get(0, 0), Some(&10));
    assert_eq!(grid.get(1, 0), Some(&21));
    assert_eq!(grid.get(0, 1), Some(&130));
    assert_eq!(grid.get(1, 1), Some(&141));
}

#[test]
fn from_rows_places_row_y_value_x_at_x_y() {
    let grid = Grid::from(vec![vec!['a', 'b', 'c'], vec!['d', 'e', 'f']]);
    assert_eq!(grid.width(), 3);
    assert_eq!(grid.height(), 2);
    assert_eq!(grid.get(0, 0), Some(&'a'));
    assert_eq!(grid.get(2, 0), Some(&'c'));
    assert_eq!(grid.get(0, 1), Some(&'d'));
    assert_eq!(grid.get(2, 1), Some(&'f'));
    assert_eq!(grid.get(3, 1), None);
}

#[test]
fn from_without_rows_or_with_empty_first_row_is_empty() {
    let no_rows: Grid<u8> = Grid::from(Vec::<Vec<u8>>::new());
    assert_eq!((no_rows.width(), no_rows.height()), (0, 0));
    assert_eq!(no_rows.get(0, 0), None);
    let empty_first: Grid<u8> = Grid::from(vec![vec![], vec![1, 2]]);
    assert_eq!((empty_first.width(), empty_first.height()), (0, 0));
    assert_eq!(empty_first.get(0, 1), None);
}

#[test]
fn from_jagged_rows_keeps_first_row_width() {
    let grid = Grid::from(vec![vec![1u8, 2], vec![3]]);
    assert_eq!((grid.width(), grid.height()), (2, 2));
    assert_eq!(grid.get(0, 1), Some(&3));
    assert_eq!(grid.get(1, 1), None);
}

#[test]
fn new_zero_sized_grid_has_no_cells() {
    let grid: Grid<u8> = Grid::new(0, 5);
    assert_eq!(grid.get(0, 0), None);
    let count = RefCell::new(0);
    grid.for_each(|_, _| *count.borrow_mut() += 1);
    assert_eq!(count.into_inner(), 0);
}

#[test]
fn unflatten_index_inverts_the_flat_index() {
    assert_eq!(Grid::<u8>::unflatten_index(7, 3), (1, 2));
    assert_eq!(Grid::<u8>::unflatten_index(2 * 5 + 4, 5), (4, 2));
    assert_eq!(Grid::<u8>::unflatten_index(0, 1), (0, 0));
}
