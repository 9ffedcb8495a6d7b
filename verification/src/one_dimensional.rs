//! A two-dimensional grid stored in a one-dimensional `Vec`, reached through `get` and `set`.

use crate::grid::{
    append_rows, flat_index_of, lemma_flat_index_injective, lemma_flatten_rectangular, rows_view,
};
use vstd::prelude::*;

verus! {

/// An implementation of a two-dimensional grid using a one-dimensional `Vec`: cell `(x, y)`
/// lives at flat index `y * width + x`.
pub struct OneDimensionalGrid<T> {
    width: usize,
    height: usize,
    flat_grid: Vec<T>,
}

impl<D: Default> OneDimensionalGrid<D> {
    /// Creates a new `width` x `height` grid whose values are initialized using the `Default`
    /// implementation of `D`.
    pub fn new(width: usize, height: usize) -> (grid: OneDimensionalGrid<D>)
        requires
            width * height <= usize::MAX,
        ensures
            grid.spec_width() == width,
            grid.spec_height() == height,
            grid.cells().len() == width * height,
            forall|i: int|
                0 <= i < grid.cells().len() ==> call_ensures(D::default, (), #[trigger] grid.cells()[i]),
    {
        let cells_count = width * height;
        let mut flat_grid: Vec<D> = Vec::with_capacity(cells_count);
        let mut i: usize = 0;
        while i < cells_count
            invariant
                i <= cells_count,
                flat_grid@.len() == i,
                forall|j: int| 0 <= j < i ==> call_ensures(D::default, (), #[trigger] flat_grid@[j]),
            decreases cells_count - i,
        {
            flat_grid.push(D::default());
            i = i + 1;
        }
        OneDimensionalGrid { width, height, flat_grid }
    }
}

impl<T> OneDimensionalGrid<T> {
    /// Horizontal length of the grid.
    pub closed spec fn spec_width(&self) -> nat {
        self.width as nat
    }

    /// Vertical length of the grid.
    pub closed spec fn spec_height(&self) -> nat {
        self.height as nat
    }

    /// The cells of the grid, row after row.
    pub closed spec fn cells(&self) -> Seq<T> {
        self.flat_grid@
    }

    /// `(x, y)` names a cell of the grid.
    pub open spec fn in_bounds(&self, x: int, y: int) -> bool {
        &&& 0 <= x < self.spec_width()
        &&& 0 <= y < self.spec_height()
        &&& flat_index_of(x, y, self.spec_width() as int) < self.cells().len()
    }

    /// The value stored in cell `(x, y)`.
    pub open spec fn cell(&self, x: int, y: int) -> T {
        self.cells()[flat_index_of(x, y, self.spec_width() as int)]
    }

    /// The value at `(x, y)`, or `None` when `(x, y)` lies outside the grid.
    pub open spec fn spec_get(&self, x: int, y: int) -> Option<T> {
        if self.in_bounds(x, y) {
            Some(self.cell(x, y))
        } else {
            None
        }
    }

    /// Maps the natural two-dimensional coordinates in a grid to a one-dimensional index which
    /// refers to the equivalent position in the flat grid, or `None` when the coordinates point
    /// to outside the grid.
    pub fn calculate_flat_index(&self, x: usize, y: usize) -> (r: Option<usize>)
        ensures
            r is Some <==> self.in_bounds(x as int, y as int),
            r matches Some(i) ==> i as int == flat_index_of(x as int, y as int, self.spec_width() as int),
    {
        let cells_count = self.flat_grid.len();
        if x >= self.width || y >= self.height {
            return None;
        }
        match y.checked_mul(self.width) {
            Some(row_start) => match row_start.checked_add(x) {
                Some(flat_index) => {
                    if flat_index < cells_count {
                        Some(flat_index)
                    } else {
                        None
                    }
                },
                None => None,
            },
            None => None,
        }
    }

    /// The horizontal length of the grid.
    pub fn width(&self) -> (r: usize)
        ensures
            r == self.spec_width(),
    {
        self.width
    }

    /// The vertical length of the grid.
    pub fn height(&self) -> (r: usize)
        ensures
            r == self.spec_height(),
    {
        self.height
    }

    /// Retrieves a reference to the value at `(x, y)`, or `None` if such coordinates point to
    /// outside the grid.
    pub fn get(&self, x: usize, y: usize) -> (r: Option<&T>)
        ensures
            r is Some <==> self.in_bounds(x as int, y as int),
            r matches Some(v) ==> *v == self.cell(x as int, y as int),
    {
        match self.calculate_flat_index(x, y) {
            Some(flat_index) => Some(&self.flat_grid[flat_index]),
            None => None,
        }
    }

    /// Stores `new_value` at `(x, y)` and returns `Some(())`, or returns `None` (and leaves the
    /// grid unchanged) if such coordinates point to outside the grid.
    pub fn set(&mut self, x: usize, y: usize, new_value: T) -> (r: Option<()>)
        ensures
            r is Some <==> old(self).in_bounds(x as int, y as int),
            final(self).spec_width() == old(self).spec_width(),
            final(self).spec_height() == old(self).spec_height(),
            r is Some ==> final(self).cells() == old(self).cells().update(
                flat_index_of(x as int, y as int, old(self).spec_width() as int),
                new_value,
            ),
            r is None ==> final(self).cells() == old(self).cells(),
            forall|cx: int, cy: int|
                #[trigger] final(self).spec_get(cx, cy) == if cx == x && cy == y && r is Some {
                    Some(new_value)
                } else {
                    old(self).spec_get(cx, cy)
                },
    {
        let ghost before = *self;
        match self.calculate_flat_index(x, y) {
            Some(flat_index) => {
                self.flat_grid[flat_index] = new_value;
                assert forall|cx: int, cy: int| #[trigger] self.spec_get(cx, cy) == if cx == x
                    && cy == y {
                    Some(new_value)
                } else {
                    before.spec_get(cx, cy)
                } by {
                    if before.in_bounds(cx, cy) && (cx != x || cy != y) {
                        if flat_index_of(cx, cy, before.spec_width() as int) == flat_index as int {
                            lemma_flat_index_injective(
                                cx,
                                cy,
                                x as int,
                                y as int,
                                before.spec_width() as int,
                            );
                        }
                    }
                }
                Some(())
            },
            None => None,
        }
    }
}

impl<T> vstd::std_specs::convert::FromSpecImpl<Vec<Vec<T>>> for OneDimensionalGrid<T> {
    open spec fn obeys_from_spec() -> bool {
        false
    }

    open spec fn from_spec(raw_grid: Vec<Vec<T>>) -> Self {
        arbitrary()
    }
}

impl<T> From<Vec<Vec<T>>> for OneDimensionalGrid<T> {
    /// Builds a grid from its rows: the height is the number of rows, the width the length of
    /// the first row, and the cells are the rows' values, row after row. Without rows, or with
    /// an empty first row, the grid is empty.
    fn from(raw_grid: Vec<Vec<T>>) -> (grid: Self)
        ensures
            raw_grid@.len() == 0 || raw_grid@[0]@.len() == 0 ==> {
                &&& grid.spec_width() == 0
                &&& grid.spec_height() == 0
                &&& grid.cells().len() == 0
            },
            raw_grid@.len() > 0 && raw_grid@[0]@.len() > 0 ==> {
                &&& grid.spec_width() == raw_grid@[0]@.len()
                &&& grid.spec_height() == raw_grid@.len()
                &&& grid.cells() == rows_view(raw_grid@).flatten()
            },
            (forall|j: int| 0 <= j < raw_grid@.len() ==> (#[trigger] raw_grid@[j])@.len() == raw_grid@[0]@.len())
                ==> {
                &&& grid.cells().len() == grid.spec_width() * grid.spec_height()
                &&& forall|x: int, y: int|
                    grid.in_bounds(x, y) ==> grid.cell(x, y) == #[trigger] raw_grid@[y]@[x]
            },
    {
        let height = raw_grid.len();
        if height == 0 {
            return OneDimensionalGrid { width: 0, height: 0, flat_grid: Vec::new() };
        }
        let width = raw_grid[0].len();
        if width == 0 {
            return OneDimensionalGrid { width: 0, height: 0, flat_grid: Vec::new() };
        }
        let ghost rows = raw_grid@;
        let mut remaining_rows = raw_grid;
        let mut flat_grid: Vec<T> = Vec::new();
        append_rows(&mut flat_grid, &mut remaining_rows, 0);
        proof {
            assert(rows_view(rows).subrange(0, rows.len() as int) =~= rows_view(rows));
            assert(Seq::<T>::empty() + rows_view(rows).flatten() =~= rows_view(rows).flatten());
            if forall|j: int| 0 <= j < rows.len() ==> (#[trigger] rows[j])@.len() == width {
                assert forall|j: int| 0 <= j < rows.len() implies (#[trigger] rows_view(rows)[j]).len()
                    == width by {
                    assert(rows_view(rows)[j] == rows[j]@);
                }
                lemma_flatten_rectangular(rows_view(rows), width as int);
                assert forall|x: int, y: int| 0 <= x < width && 0 <= y < height implies
                    flat_grid@[flat_index_of(x, y, width as int)] == #[trigger] rows[y]@[x] by {
                    assert(rows_view(rows)[y] == rows[y]@);
                }
            }
        }
        OneDimensionalGrid { width, height, flat_grid }
    }
}

} // verus!
