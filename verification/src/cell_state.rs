//! The material state of each cell of the simulation's grid, and the cell-state grid the engine
//! keeps: solid walls around a box of air, with the cells that hold fluid particles marked as
//! water on every timestep.

use crate::grid::{flat_index_of, unflattened, Grid};
use vstd::prelude::*;

verus! {

/// The state of a given cell in terms of material.
#[derive(Debug, Clone, Copy, PartialEq, Eq, Structural)]
pub enum CellState {
    /// A solid cell, can represent the boundaries of the grid to prevent the fluid from
    /// escaping, or an obstacle.
    Solid,
    /// A cell full of water.
    Water,
    /// A cell full of air.
    Air,
}

/// The weight by which a velocity correction applies to a cell of the given state: 0 for a
/// solid cell, 1 for water and air.
pub open spec fn correction_weight(state: CellState) -> u8 {
    match state {
        CellState::Solid => 0,
        CellState::Water => 1,
        CellState::Air => 1,
    }
}

/// Whether a possibly missing neighbour is a cell that velocity corrections reach: a
/// neighbour outside the grid, like a solid one, counts for nothing.
pub open spec fn neighbor_weight(state: Option<CellState>) -> int {
    match state {
        Some(state) => correction_weight(state) as int,
        None => 0,
    }
}

/// The state a cell has once the water has been cleared from the grid: water becomes air, the
/// other states stay.
pub open spec fn without_water(state: CellState) -> CellState {
    match state {
        CellState::Water => CellState::Air,
        other => other,
    }
}

/// The initial state of cell `(x, y)` in a `width` x `height` grid: solid on the border, air
/// inside.
pub open spec fn initial_state(x: int, y: int, width: int, height: int) -> CellState {
    if x == 0 || y == 0 || x == width - 1 || y == height - 1 {
        CellState::Solid
    } else {
        CellState::Air
    }
}

impl CellState {
    /// The weight by which a velocity correction applies to this cell: 0 for a solid cell,
    /// which is not affected, and 1 for water and air cells.
    pub fn velocity_correction_weight(&self) -> (weight: u8)
        ensures
            weight == correction_weight(*self),
    {
        match self {
            CellState::Solid => 0,
            CellState::Air => 1,
            CellState::Water => 1,
        }
    }
}

/// The state of a cell once the water has been cleared from the grid, whatever its
/// coordinates.
fn cleared_state(state: &CellState, coords: (usize, usize)) -> (cleared: CellState)
    ensures
        cleared == without_water(*state),
{
    match state {
        CellState::Water => CellState::Air,
        other => *other,
    }
}

/// A row of `len` cells that all have the given state.
fn uniform_row(state: CellState, len: usize) -> (row: Vec<CellState>)
    ensures
        row@.len() == len,
        forall|i: int| 0 <= i < len ==> #[trigger] row@[i] == state,
{
    let mut row: Vec<CellState> = Vec::with_capacity(len);
    let mut i: usize = 0;
    while i < len
        invariant
            i <= len,
            row@.len() == i,
            forall|j: int| 0 <= j < i ==> #[trigger] row@[j] == state,
        decreases len - i,
    {
        row.push(state);
        i = i + 1;
    }
    row
}

/// The rows of the initial state grid: a solid top and bottom row, and interior rows with
/// solid ends and air between them.
fn initial_rows(grid_width: usize, grid_height: usize) -> (rows: Vec<Vec<CellState>>)
    requires
        grid_height >= 2,
        grid_height > 2 ==> grid_width >= 2,
    ensures
        rows@.len() == grid_height,
        forall|y: int| 0 <= y < grid_height ==> (#[trigger] rows@[y])@.len() == grid_width,
        forall|x: int, y: int|
            0 <= x < grid_width && 0 <= y < grid_height ==> #[trigger] rows@[y]@[x]
                == initial_state(x, y, grid_width as int, grid_height as int),
{
    let mut rows: Vec<Vec<CellState>> = Vec::with_capacity(grid_height);
    // Top row:
    rows.push(uniform_row(CellState::Solid, grid_width));
    // Interior rows:
    let interior_rows = grid_height - 2;
    let mut y: usize = 0;
    while y < interior_rows
        invariant
            interior_rows == grid_height - 2,
            grid_height > 2 ==> grid_width >= 2,
            y <= interior_rows,
            rows@.len() == y + 1,
            forall|j: int| 0 <= j <= y ==> (#[trigger] rows@[j])@.len() == grid_width,
            forall|x: int, j: int|
                0 <= x < grid_width && 0 <= j <= y ==> #[trigger] rows@[j]@[x] == initial_state(
                    x,
                    j,
                    grid_width as int,
                    grid_height as int,
                ),
        decreases interior_rows - y,
    {
        let mut row: Vec<CellState> = Vec::with_capacity(grid_width);
        row.push(CellState::Solid);
        let mut x: usize = 0;
        while x < grid_width - 2
            invariant
                grid_width >= 2,
                x <= grid_width - 2,
                row@.len() == x + 1,
                row@[0] == CellState::Solid,
                forall|i: int| 1 <= i <= x ==> #[trigger] row@[i] == CellState::Air,
            decreases grid_width - 2 - x,
        {
            row.push(CellState::Air);
            x = x + 1;
        }
        row.push(CellState::Solid);
        rows.push(row);
        y = y + 1;
    }
    // Bottom row:
    rows.push(uniform_row(CellState::Solid, grid_width));
    rows
}

/// The cell-state grid of the simulation engine: which cells are solid, which hold water and
/// which hold air, for an engine of `grid_width` x `grid_height` cells.
pub struct CellStateGrid {
    grid_width: usize,
    grid_height: usize,
    grid_state: Grid<CellState>,
}

impl CellStateGrid {
    /// Number of cells of the engine in the horizontal axis.
    pub closed spec fn spec_grid_width(&self) -> nat {
        self.grid_width as nat
    }

    /// Number of cells of the engine in the vertical axis.
    pub closed spec fn spec_grid_height(&self) -> nat {
        self.grid_height as nat
    }

    /// The grid of cell states.
    pub closed spec fn states(&self) -> Grid<CellState> {
        self.grid_state
    }

    /// The state grid has the engine's dimensions and one state per cell; an engine without
    /// columns has no cell states.
    pub open spec fn is_well_formed(&self) -> bool {
        &&& self.spec_grid_width() <= usize::MAX
        &&& self.spec_grid_height() <= usize::MAX
        &&& self.spec_grid_width() > 0 ==> {
            &&& self.states().spec_width() == self.spec_grid_width()
            &&& self.states().spec_height() == self.spec_grid_height()
            &&& self.states().is_rectangular()
        }
        &&& self.spec_grid_width() == 0 ==> self.states().cells().len() == 0
    }

    /// Builds the initial state grid of an engine of `grid_width` x `grid_height` cells: a box
    /// of air whose boundary cells are solid.
    pub fn new(grid_width: usize, grid_height: usize) -> (grid: CellStateGrid)
        requires
            grid_height >= 2,
            grid_height > 2 ==> grid_width >= 2,
        ensures
            grid.is_well_formed(),
            grid.spec_grid_width() == grid_width,
            grid.spec_grid_height() == grid_height,
            grid_width > 0 ==> {
                &&& grid.states().spec_width() == grid_width
                &&& grid.states().spec_height() == grid_height
                &&& grid.states().is_rectangular()
                &&& forall|x: int, y: int|
                    0 <= x < grid_width && 0 <= y < grid_height ==> #[trigger] grid.states().spec_get(x, y)
                        == Some(initial_state(x, y, grid_width as int, grid_height as int))
                &&& forall|x: int, y: int|
                    0 < x < grid_width - 1 && 0 < y < grid_height - 1 ==> #[trigger] grid.states().spec_get(
                        x,
                        y,
                    ) == Some(CellState::Air)
                &&& forall|x: int, y: int|
                    0 <= x < grid_width && 0 <= y < grid_height && (x == 0 || y == 0 || x == grid_width - 1
                        || y == grid_height - 1) ==> #[trigger] grid.states().spec_get(x, y) == Some(
                        CellState::Solid,
                    )
            },
            grid_width == 0 ==> grid.states().cells().len() == 0,
    {
        let rows = initial_rows(grid_width, grid_height);
        let ghost rows_view = rows@;
        let grid_state = Grid::from(rows);
        proof {
            if grid_width > 0 {
                assert forall|x: int, y: int|
                    0 <= x < grid_width && 0 <= y < grid_height implies #[trigger] grid_state.spec_get(x, y)
                        == Some(initial_state(x, y, grid_width as int, grid_height as int)) by {
                    assert(rows_view[y]@[x] == initial_state(x, y, grid_width as int, grid_height as int));
                    assert(grid_state.in_bounds(x, y)) by (nonlinear_arith)
                        requires
                            0 <= x < grid_width,
                            0 <= y < grid_height,
                            grid_state.spec_width() == grid_width,
                            grid_state.spec_height() == grid_height,
                            grid_state.cells().len() == grid_width * grid_height,
                            grid_state.in_bounds(x, y) == (0 <= x < grid_state.spec_width()
                                && 0 <= y < grid_state.spec_height() && flat_index_of(
                                x,
                                y,
                                grid_state.spec_width() as int,
                            ) < grid_state.cells().len());
                }
            }
        }
        CellStateGrid { grid_width, grid_height, grid_state }
    }

    /// Number of cells of the engine in the horizontal axis.
    pub fn grid_width(&self) -> (r: usize)
        ensures
            r == self.spec_grid_width(),
    {
        self.grid_width
    }

    /// Number of cells of the engine in the vertical axis.
    pub fn grid_height(&self) -> (r: usize)
        ensures
            r == self.spec_grid_height(),
    {
        self.grid_height
    }

    /// The state of cell `(x, y)`, or `None` when `(x, y)` lies outside the grid.
    pub fn get_cell(&self, x: usize, y: usize) -> (r: Option<&CellState>)
        ensures
            r is Some <==> self.states().in_bounds(x as int, y as int),
            r matches Some(state) ==> Some(*state) == self.states().spec_get(x as int, y as int),
    {
        self.grid_state.get(x, y)
    }

    /// Whether cell `(x, y)` lies inside the grid and holds water.
    pub fn is_fluid_cell(&self, x: usize, y: usize) -> (r: bool)
        ensures
            r == (self.states().spec_get(x as int, y as int) == Some(CellState::Water)),
    {
        match self.grid_state.get(x, y) {
            Some(CellState::Water) => true,
            _ => false,
        }
    }

    /// The number of the four neighbours of cell `(x, y)` that velocity corrections reach:
    /// the neighbours that lie inside the grid and are not solid. Each counts with its
    /// [`CellState::velocity_correction_weight`]: a solid cell 0, a water or air cell 1, so the
    /// count is at most 4. The projection step divides a cell's divergence by this count and
    /// hands each face towards such a neighbour an equal share of it.
    pub fn count_fluid_neighbors(&self, x: usize, y: usize) -> (r: u8)
        requires
            1 <= x < usize::MAX,
            1 <= y < usize::MAX,
        ensures
            r == neighbor_weight(self.states().spec_get(x - 1, y as int))
                + neighbor_weight(self.states().spec_get(x + 1, y as int))
                + neighbor_weight(self.states().spec_get(x as int, y - 1))
                + neighbor_weight(self.states().spec_get(x as int, y + 1)),
            r <= 4,
    {
        let left_neighbor = match self.grid_state.get(x - 1, y) {
            Some(state) => state.velocity_correction_weight(),
            None => 0,
        };
        let right_neighbor = match self.grid_state.get(x + 1, y) {
            Some(state) => state.velocity_correction_weight(),
            None => 0,
        };
        let top_neighbor = match self.grid_state.get(x, y - 1) {
            Some(state) => state.velocity_correction_weight(),
            None => 0,
        };
        let bottom_neighbor = match self.grid_state.get(x, y + 1) {
            Some(state) => state.velocity_correction_weight(),
            None => 0,
        };
        left_neighbor + right_neighbor + top_neighbor + bottom_neighbor
    }

    /// Turns every water cell into an air cell; solid and air cells stay as they are.
    pub fn clear_water_cells(&mut self)
        requires
            old(self).is_well_formed(),
        ensures
            final(self).is_well_formed(),
            final(self).spec_grid_width() == old(self).spec_grid_width(),
            final(self).spec_grid_height() == old(self).spec_grid_height(),
            final(self).states().spec_width() == old(self).states().spec_width(),
            final(self).states().spec_height() == old(self).states().spec_height(),
            final(self).states().cells().len() == old(self).states().cells().len(),
            forall|i: int|
                0 <= i < old(self).states().cells().len() ==> #[trigger] final(self).states().cells()[i]
                    == without_water(old(self).states().cells()[i]),
            forall|x: int, y: int|
                #[trigger] final(self).states().spec_get(x, y) == match old(self).states().spec_get(x, y) {
                    Some(state) => Some(without_water(state)),
                    None => None,
                },
            forall|x: int, y: int| #[trigger] final(self).states().spec_get(x, y) != Some(CellState::Water),
            forall|x: int, y: int|
                old(self).states().spec_get(x, y) == Some(CellState::Water) ==> #[trigger] final(self).states().spec_get(x, y) == Some(CellState::Air),
            forall|x: int, y: int|
                old(self).states().spec_get(x, y) == Some(CellState::Air) ==> #[trigger] final(self).states().spec_get(x, y) == Some(CellState::Air),
            forall|x: int, y: int|
                old(self).states().spec_get(x, y) == Some(CellState::Solid) ==> #[trigger] final(self).states().spec_get(x, y) == Some(CellState::Solid),
    {
        let ghost before = self.grid_state.cells();
        self.grid_state.for_each_mut(cleared_state);
        assert forall|i: int| 0 <= i < before.len() implies #[trigger] self.grid_state.cells()[i]
            == without_water(before[i]) by {
            let coords = (
                unflattened(i, self.grid_state.spec_width() as int).0 as usize,
                unflattened(i, self.grid_state.spec_width() as int).1 as usize,
            );
            assert(call_ensures(cleared_state, (&before[i], coords), self.grid_state.cells()[i]));
        }
    }

    /// Marks cell `(x, y)` as holding water. Returns `None`, and changes nothing, when
    /// `(x, y)` lies outside the grid.
    pub fn mark_water(&mut self, x: usize, y: usize) -> (r: Option<()>)
        requires
            old(self).is_well_formed(),
        ensures
            final(self).is_well_formed(),
            r is Some <==> old(self).states().in_bounds(x as int, y as int),
            final(self).spec_grid_width() == old(self).spec_grid_width(),
            final(self).spec_grid_height() == old(self).spec_grid_height(),
            final(self).states().spec_width() == old(self).states().spec_width(),
            final(self).states().spec_height() == old(self).states().spec_height(),
            final(self).states().cells().len() == old(self).states().cells().len(),
            forall|cx: int, cy: int|
                #[trigger] final(self).states().spec_get(cx, cy) == if cx == x && cy == y && r is Some {
                    Some(CellState::Water)
                } else {
                    old(self).states().spec_get(cx, cy)
                },
    {
        self.grid_state.set(x, y, CellState::Water)
    }

    /// Whether `grid` has the engine's dimensions.
    pub fn do_grid_dimensions_match<C>(&self, grid: &Grid<C>) -> (r: bool)
        ensures
            r == (self.spec_grid_width() == grid.spec_width() && self.spec_grid_height()
                == grid.spec_height()),
    {
        self.grid_width == grid.width() && self.grid_height == grid.height()
    }

    /// Whether `staggered_grid` has the dimensions of a staggered grid of the engine: one more
    /// column and one more row than the engine has cells.
    pub fn do_staggered_grid_dimensions_match<C>(&self, staggered_grid: &Grid<C>) -> (r: bool)
        ensures
            r == (self.spec_grid_width() + 1 == staggered_grid.spec_width()
                && self.spec_grid_height() + 1 == staggered_grid.spec_height()),
    {
        let staggered_width = staggered_grid.width();
        let staggered_height = staggered_grid.height();
        staggered_width > 0 && staggered_height > 0 && self.grid_width == staggered_width - 1
            && self.grid_height == staggered_height - 1
    }
}

/// Clearing the water turns a water cell into air and keeps air and solid cells as they are.
pub proof fn law_clearing_water(state: CellState)
    ensures
        state == CellState::Water ==> without_water(state) == CellState::Air,
        state == CellState::Air ==> without_water(state) == CellState::Air,
        state == CellState::Solid ==> without_water(state) == CellState::Solid,
{
}

/// The initial grid of a `width` x `height` engine is solid exactly on its border and air
/// everywhere inside.
pub proof fn law_initial_state(x: int, y: int, width: int, height: int)
    requires
        0 <= x < width,
        0 <= y < height,
    ensures
        (x == 0 || y == 0 || x == width - 1 || y == height - 1) ==> initial_state(x, y, width, height)
            == CellState::Solid,
        (0 < x < width - 1 && 0 < y < height - 1) ==> initial_state(x, y, width, height)
            == CellState::Air,
{
}

/// A water cell is a cell of the engine: its coordinates lie within the engine's width and
/// height.
pub proof fn law_fluid_cell_is_engine_cell(grid: CellStateGrid, x: int, y: int)
    requires
        grid.is_well_formed(),
        grid.states().spec_get(x, y) == Some(CellState::Water),
    ensures
        0 <= x < grid.spec_grid_width(),
        0 <= y < grid.spec_grid_height(),
{
}

/// The four corners `(x, y)`, `(x + 1, y)`, `(x, y + 1)` and `(x + 1, y + 1)` of a cell of an
/// engine of `grid_width` x `grid_height` cells lie inside every rectangular staggered grid of
/// the engine, that is, one with one more column and one more row than the engine has cells.
pub proof fn law_cell_corners_in_staggered_grid<C>(
    grid_width: nat,
    grid_height: nat,
    staggered: Grid<C>,
    x: int,
    y: int,
)
    requires
        staggered.is_rectangular(),
        staggered.spec_width() == grid_width + 1,
        staggered.spec_height() == grid_height + 1,
        0 <= x < grid_width,
        0 <= y < grid_height,
    ensures
        staggered.in_bounds(x, y),
        staggered.in_bounds(x + 1, y),
        staggered.in_bounds(x, y + 1),
        staggered.in_bounds(x + 1, y + 1),
{
    let w = staggered.spec_width() as int;
    let h = staggered.spec_height() as int;
    assert(flat_index_of(x + 1, y + 1, w) < w * h) by (nonlinear_arith)
        requires 0 <= x + 1 < w, 0 <= y + 1 < h;
    assert(flat_index_of(x, y + 1, w) < flat_index_of(x + 1, y + 1, w));
    assert(flat_index_of(x + 1, y, w) < flat_index_of(x + 1, y + 1, w)) by (nonlinear_arith)
        requires 0 <= x + 1 < w, 0 <= y;
    assert(flat_index_of(x, y, w) < flat_index_of(x + 1, y, w));
}

} // verus!