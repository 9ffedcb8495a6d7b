use fluid_simulation::one_dimensional::OneDimensionalGrid;

#[test]
fn one_dimensional_new_holds_defaults() {
    let grid: OneDimensionalGrid<i32> = OneDimensionalGrid::new(2, 3);
    assert_eq!(grid.width(), 2);
    assert_eq!(grid.height(), 3);
    assert_eq!(grid.get(1, 2), Some(&0));
    assert_eq!(grid.get(2, 0), None);
}

#[test]
fn one_dimensional_set_then_get() {
    let mut grid: OneDimensionalGrid<i32> = OneDimensionalGrid::new(3, 3);
    assert_eq!(grid.set(1, 2, 42), Some(()));
    assert_eq!(grid.get(1, 2), Some(&42));
    assert_eq!(grid.get(2, 1), Some(&0));
    assert_eq!(grid.set(3, 0, 1), None);
}

#[test]
fn one_dimensional_flat_index_is_row_major() {
    let grid: OneDimensionalGrid<u8> = OneDimensionalGrid::new(4, 2);
    assert_eq!(grid.calculate_flat_index(3, 1), Some(7));
    assert_eq!(grid.calculate_flat_index(0, 1), Some(4));
    assert_eq!(grid.calculate_flat_index(4, 0), None);
}

#[test]
fn one_dimensional_from_rows() {
    let grid = OneDimensionalGrid::from(vec![vec![1u8, 2], vec![3, 4], vec![5, 6]]);
    assert_eq!((grid.width(), grid.height()), (2, 3));
    assert_eq!(grid.get(1, 0), Some(&2));
    assert_eq!(grid.get(0, 2), Some(&5));
    let empty: OneDimensionalGrid<u8> = OneDimensionalGrid::from(vec![vec![]]);
    assert_eq!((empty.width(), empty.height()), (0, 0));
}
