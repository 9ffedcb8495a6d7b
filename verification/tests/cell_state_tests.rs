use fluid_simulation::cell_state::{CellState, CellStateGrid};
use fluid_simulation::grid::Grid;

#[test]
fn initial_state_grid_has_solid_border_and_air_inside() {
    let grid = CellStateGrid::new(4, 3);
    assert_eq!((grid.grid_width(), grid.grid_height()), (4, 3));
    for y in 0..3 {
        for x in 0..4 {
            let expected = if x == 0 || y == 0 || x == 3 || y == 2 {
                CellState::Solid
            } else {
                CellState::Air
            };
            assert_eq!(grid.get_cell(x, y), Some(&expected));
        }
    }
    assert_eq!(grid.get_cell(4, 0), None);
}

#[test]
fn two_rows_grid_is_all_solid() {
    let grid = CellStateGrid::new(1, 2);
    assert_eq!(grid.get_cell(0, 0), Some(&CellState::Solid));
    assert_eq!(grid.get_cell(0, 1), Some(&CellState::Solid));
    let empty = CellStateGrid::new(0, 2);
    assert_eq!(empty.get_cell(0, 0), None);
}

#[test]
fn marked_cell_is_fluid() {
    let mut grid = CellStateGrid::new(4, 4);
    assert!(!grid.is_fluid_cell(1, 1));
    assert_eq!(grid.mark_water(1, 1), Some(()));
    assert!(grid.is_fluid_cell(1, 1));
    assert!(!grid.is_fluid_cell(2, 1));
    assert_eq!(grid.mark_water(4, 1), None);
    assert!(!grid.is_fluid_cell(4, 1));
}

#[test]
fn clearing_water_turns_water_into_air_only() {
    let mut grid = CellStateGrid::new(4, 4);
    grid.mark_water(1, 1);
    grid.mark_water(2, 2);
    grid.mark_water(0, 0);
    grid.clear_water_cells();
    assert_eq!(grid.get_cell(1, 1), Some(&CellState::Air));
    assert_eq!(grid.get_cell(2, 2), Some(&CellState::Air));
    assert_eq!(grid.get_cell(0, 0), Some(&CellState::Air));
    assert_eq!(grid.get_cell(3, 3), Some(&CellState::Solid));
    for y in 0..4 {
        for x in 0..4 {
            assert!(!grid.is_fluid_cell(x, y));
        }
    }
}

#[test]
fn neighbours_count_non_solid_cells() {
    // 5 x 5: solid border, air inside.
    let mut grid = CellStateGrid::new(5, 5);
    // Cell (1, 1): left and top are solid, right and bottom are air.
    assert_eq!(grid.count_fluid_neighbors(1, 1), 2);
    grid.mark_water(2, 1);
    assert_eq!(grid.count_fluid_neighbors(1, 1), 2);
    // Cell (2, 2): all four neighbours are interior (air or water).
    assert_eq!(grid.count_fluid_neighbors(2, 2), 4);
    // Cell (1, 2): the left neighbour is solid.
    assert_eq!(grid.count_fluid_neighbors(1, 2), 3);
    // Neighbours outside the grid count for nothing.
    assert_eq!(grid.count_fluid_neighbors(4, 4), 0);
}

#[test]
fn velocity_correction_weight_is_zero_only_for_solid() {
    assert_eq!(CellState::Solid.velocity_correction_weight(), 0);
    assert_eq!(CellState::Water.velocity_correction_weight(), 1);
    assert_eq!(CellState::Air.velocity_correction_weight(), 1);
}

#[test]
fn grid_dimension_checks() {
    let grid = CellStateGrid::new(4, 3);
    let same: Grid<u8> = Grid::new(4, 3);
    let staggered: Grid<u8> = Grid::new(5, 4);
    assert!(grid.do_grid_dimensions_match(&same));
    assert!(!grid.do_grid_dimensions_match(&staggered));
    assert!(grid.do_staggered_grid_dimensions_match(&staggered));
    assert!(!grid.do_staggered_grid_dimensions_match(&same));
    let empty: Grid<u8> = Grid::new(0, 0);
    assert!(!grid.do_staggered_grid_dimensions_match(&empty));
}

#[test]
fn corners_of_a_water_cell_are_in_the_staggered_grid() {
    let mut grid = CellStateGrid::new(4, 3);
    grid.mark_water(3, 2);
    assert!(grid.is_fluid_cell(3, 2));
    let staggered: Grid<u8> = Grid::new(5, 4);
    assert!(grid.do_staggered_grid_dimensions_match(&staggered));
    for (x, y) in [(3, 2), (4, 2), (3, 3), (4, 3)] {
        assert!(staggered.get(x, y).is_some());
    }
}
