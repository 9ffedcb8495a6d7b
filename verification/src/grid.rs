//! The main data structure used in the simulation - a two-dimensional grid.

use vstd::arithmetic::div_mod::{lemma_fundamental_div_mod, lemma_fundamental_div_mod_converse};
use vstd::arithmetic::mul::lemma_mul_is_commutative;
use vstd::prelude::*;

verus! {

/// A two-dimensional grid holding some kind of data. Should be used to transport data around
/// the simulation.
///
/// The cells are stored row after row in one flat vector: cell `(x, y)` lives at flat index
/// `y * width + x`.
#[derive(Debug)]
pub struct Grid<T> {
    /// Width of the grid (horizontal length).
    width: usize,
    /// Height of the grid (vertical length).
    height: usize,
    /// The actual place where values are stored.
    flat_grid: Vec<T>,
}

/// Flat position of the cell `(x, y)` in a grid of the given width.
pub open spec fn flat_index_of(x: int, y: int, width: int) -> int {
    y * width + x
}

/// Two coordinates inside a row of the given width share a flat position only when they are
/// the same coordinates.
pub proof fn lemma_flat_index_injective(x1: int, y1: int, x2: int, y2: int, width: int)
    requires
        0 <= x1 < width,
        0 <= x2 < width,
        0 <= y1,
        0 <= y2,
        flat_index_of(x1, y1, width) == flat_index_of(x2, y2, width),
    ensures
        x1 == x2,
        y1 == y2,
{
    let i = flat_index_of(x1, y1, width);
    lemma_fundamental_div_mod_converse(i, width, y1, x1);
    lemma_fundamental_div_mod_converse(i, width, y2, x2);
}

/// The `(x, y)` coordinates of the cell at the given flat position of a grid of the given width.
pub open spec fn unflattened(flat_index: int, width: int) -> (int, int) {
    (flat_index % width, flat_index / width)
}

/// Unflattening the flat position of a cell gives back the cell's coordinates.
pub proof fn law_unflatten_after_flatten(x: int, y: int, width: int)
    requires
        0 <= x < width,
        0 <= y,
    ensures
        unflattened(flat_index_of(x, y, width), width) == (x, y),
{
    lemma_fundamental_div_mod_converse(flat_index_of(x, y, width), width, y, x);
}

/// Flattening the coordinates of a flat position gives back the position.
pub proof fn law_flatten_after_unflatten(flat_index: int, width: int)
    requires
        0 <= flat_index,
        0 < width,
    ensures
        flat_index_of(unflattened(flat_index, width).0, unflattened(flat_index, width).1, width)
            == flat_index,
        0 <= unflattened(flat_index, width).0 < width,
        0 <= unflattened(flat_index, width).1,
{
    lemma_fundamental_div_mod(flat_index, width);
    lemma_mul_is_commutative(width, flat_index / width);
}

/// The views of the given rows.
pub open spec fn rows_view<T>(rows: Seq<Vec<T>>) -> Seq<Seq<T>> {
    rows.map_values(|row: Vec<T>| row@)
}

/// Flattening rows that all have `width` values puts value `x` of row `y` at flat position
/// `y * width + x`.
pub proof fn lemma_flatten_rectangular<T>(rows: Seq<Seq<T>>, width: int)
    requires
        0 <= width,
        forall|j: int| 0 <= j < rows.len() ==> (#[trigger] rows[j]).len() == width,
    ensures
        rows.flatten().len() == rows.len() * width,
        forall|x: int, y: int|
            0 <= x < width && 0 <= y < rows.len() ==> rows.flatten()[flat_index_of(x, y, width)]
                == #[trigger] rows[y][x],
    decreases rows.len(),
{
    if rows.len() == 0 {
        return;
    }
    let rest = rows.drop_first();
    lemma_flatten_rectangular(rest, width);
    assert(rows.flatten() == rows[0] + rest.flatten());
    assert(rows[0].len() == width);
    assert(rest.len() == rows.len() - 1);
    assert(rows.len() * width == width + rest.len() * width) by (nonlinear_arith)
        requires rows.len() == rest.len() + 1;
    assert forall|x: int, y: int| 0 <= x < width && 0 <= y < rows.len() implies rows.flatten()[
        flat_index_of(x, y, width)] == #[trigger] rows[y][x] by {
        if y > 0 {
            assert(flat_index_of(x, y, width) == width + flat_index_of(x, y - 1, width))
                by (nonlinear_arith);
            assert(0 <= flat_index_of(x, y - 1, width) < rest.len() * width) by (nonlinear_arith)
                requires 0 <= x < width, 0 <= y - 1 < rest.len();
            assert(rest[y - 1] == rows[y]);
            assert(rest[y - 1][x] == rest.flatten()[flat_index_of(x, y - 1, width)]);
        } else {
            assert(flat_index_of(x, y, width) == x);
        }
    }
}

impl<T> Grid<T> {
    /// Reading a cell right after writing `value` into it gives back `value`, and every other
    /// cell reads what it read before.
    pub proof fn law_read_after_write(before: Grid<T>, after: Grid<T>, x: int, y: int, value: T)
        requires
            before.in_bounds(x, y),
            after.spec_width() == before.spec_width(),
            after.spec_height() == before.spec_height(),
            after.cells() == before.cells().update(
                flat_index_of(x, y, before.spec_width() as int),
                value,
            ),
        ensures
            after.spec_get(x, y) == Some(value),
            forall|cx: int, cy: int|
                (cx != x || cy != y) ==> #[trigger] after.spec_get(cx, cy) == before.spec_get(cx, cy),
    {
        assert forall|cx: int, cy: int| (cx != x || cy != y) implies #[trigger] after.spec_get(cx, cy)
            == before.spec_get(cx, cy) by {
            if before.in_bounds(cx, cy) && flat_index_of(cx, cy, before.spec_width() as int)
                == flat_index_of(x, y, before.spec_width() as int) {
                lemma_flat_index_injective(cx, cy, x, y, before.spec_width() as int);
            }
        }
    }
}

impl<D: Default> Grid<D> {
    /// Creates a new `width` x `height` grid whose values are initialized using the `Default`
    /// implementation of `D`.
    pub fn new(width: usize, height: usize) -> (grid: Grid<D>)
        requires
            width * height <= usize::MAX,
        ensures
            grid.spec_width() == width,
            grid.spec_height() == height,
            grid.cells().len() == width * height,
            grid.is_rectangular(),
            forall|i: int|
                0 <= i < grid.cells().len() ==> call_ensures(D::default, (), #[trigger] grid.cells()[i]),
    {
        let cells_count = width * height;
        let mut flat_grid: Vec<D> = Vec::with_capacity(cells_count);
        let mut i: usize = 0;
        while i < cells_count
            invariant
                i <= cells_count,
                flat_grid@.len() == i,
                forall|j: int| 0 <= j < i ==> call_ensures(D::default, (), #[trigger] flat_grid@[j]),
            decreases cells_count - i,
        {
            flat_grid.push(D::default());
            i = i + 1;
        }
        proof {
            if cells_count > 0 {
                assert(width > 0 && height > 0) by (nonlinear_arith)
                    requires cells_count == width * height, cells_count > 0;
            }
        }
        Grid { width, height, flat_grid }
    }
}

impl<T> Grid<T> {
    /// A grid with cells has a positive width and height.
    #[verifier::type_invariant]
    spec fn cells_have_dimensions(self) -> bool {
        self.flat_grid@.len() > 0 ==> self.width > 0 && self.height > 0
    }

    /// Horizontal length of the grid.
    pub closed spec fn spec_width(&self) -> nat {
        self.width as nat
    }

    /// Vertical length of the grid.
    pub closed spec fn spec_height(&self) -> nat {
        self.height as nat
    }

    /// The cells of the grid, row after row.
    pub closed spec fn cells(&self) -> Seq<T> {
        self.flat_grid@
    }

    /// The grid holds exactly `width * height` cells.
    pub open spec fn is_rectangular(&self) -> bool {
        self.cells().len() == self.spec_width() * self.spec_height()
    }

    /// `(x, y)` names a cell of the grid.
    pub open spec fn in_bounds(&self, x: int, y: int) -> bool {
        &&& 0 <= x < self.spec_width()
        &&& 0 <= y < self.spec_height()
        &&& flat_index_of(x, y, self.spec_width() as int) < self.cells().len()
    }

    /// The value stored in cell `(x, y)`.
    pub open spec fn cell(&self, x: int, y: int) -> T {
        self.cells()[flat_index_of(x, y, self.spec_width() as int)]
    }

    /// The value at `(x, y)`, or `None` when `(x, y)` lies outside the grid.
    pub open spec fn spec_get(&self, x: int, y: int) -> Option<T> {
        if self.in_bounds(x, y) {
            Some(self.cell(x, y))
        } else {
            None
        }
    }

    /// Maps the natural two-dimensional coordinates in a grid to a one-dimensional index which
    /// refers to the equivalent position in the flat grid, or `None` when the coordinates point
    /// to outside the grid.
    fn calculate_flat_index(&self, x: usize, y: usize) -> (r: Option<usize>)
        ensures
            r is Some <==> self.in_bounds(x as int, y as int),
            r matches Some(i) ==> i as int == flat_index_of(x as int, y as int, self.spec_width() as int),
    {
        let cells_count = self.flat_grid.len();
        if x >= self.width || y >= self.height {
            return None;
        }
        match y.checked_mul(self.width) {
            Some(row_start) => match row_start.checked_add(x) {
                Some(flat_index) => {
                    if flat_index < cells_count {
                        Some(flat_index)
                    } else {
                        None
                    }
                },
                None => None,
            },
            None => None,
        }
    }

    /// The horizontal length of the grid.
    pub fn width(&self) -> (r: usize)
        ensures
            r == self.spec_width(),
    {
        self.width
    }

    /// The vertical length of the grid.
    pub fn height(&self) -> (r: usize)
        ensures
            r == self.spec_height(),
    {
        self.height
    }

    /// Retrieves a reference to the data located at `Grid(x, y)`, or `None` if such coordinates
    /// point to outside the grid.
    pub fn get(&self, x: usize, y: usize) -> (r: Option<&T>)
        ensures
            r is Some <==> self.in_bounds(x as int, y as int),
            r matches Some(v) ==> *v == self.cell(x as int, y as int),
    {
        match self.calculate_flat_index(x, y) {
            Some(flat_index) => Some(&self.flat_grid[flat_index]),
            None => None,
        }
    }

    /// Retrieves a mutable reference to the data located at `Grid(x, y)`, or `None` if such
    /// coordinates point to outside the grid.
    pub fn get_mut(&mut self, x: usize, y: usize) -> (r: Option<&mut T>)
        ensures
            r is Some <==> old(self).in_bounds(x as int, y as int),
            final(self).spec_width() == old(self).spec_width(),
            final(self).spec_height() == old(self).spec_height(),
            match r {
                Some(value) => {
                    &&& *value == old(self).cell(x as int, y as int)
                    &&& final(self).cells() == old(self).cells().update(
                        flat_index_of(x as int, y as int, old(self).spec_width() as int),
                        *final(value),
                    )
                },
                None => final(self).cells() == old(self).cells(),
            },
    {
        match self.calculate_flat_index(x, y) {
            Some(flat_index) => Some(&mut self.flat_grid[flat_index]),
            None => None,
        }
    }

    /// Retrieves a reference to the data located at `Grid(x, y)`, for coordinates the caller
    /// knows to lie inside the grid.
    pub fn get_unchecked(&self, x: usize, y: usize) -> (r: &T)
        requires
            self.in_bounds(x as int, y as int),
        ensures
            *r == self.cell(x as int, y as int),
    {
        let flat_index = self.calculate_flat_index(x, y).unwrap();
        &self.flat_grid[flat_index]
    }

    /// Retrieves a mutable reference to the data located at `Grid(x, y)`, for coordinates the
    /// caller knows to lie inside the grid.
    pub fn get_unchecked_mut(&mut self, x: usize, y: usize) -> (r: &mut T)
        requires
            old(self).in_bounds(x as int, y as int),
        ensures
            *r == old(self).cell(x as int, y as int),
            final(self).spec_width() == old(self).spec_width(),
            final(self).spec_height() == old(self).spec_height(),
            final(self).cells() == old(self).cells().update(
                flat_index_of(x as int, y as int, old(self).spec_width() as int),
                *final(r),
            ),
    {
        let flat_index = self.calculate_flat_index(x, y).unwrap();
        &mut self.flat_grid[flat_index]
    }

    /// Sets the data located at `Grid(x, y)`.
    ///
    /// Returns `Some(())` if the new value was stored at the given coordinates, or `None` (and
    /// leaves the grid unchanged) if such coordinates point to outside the grid. Afterwards
    /// `(x, y)` reads `new_value` and every other cell reads what it read before.
    pub fn set(&mut self, x: usize, y: usize, new_value: T) -> (r: Option<()>)
        ensures
            r is Some <==> old(self).in_bounds(x as int, y as int),
            final(self).spec_width() == old(self).spec_width(),
            final(self).spec_height() == old(self).spec_height(),
            r is Some ==> final(self).cells() == old(self).cells().update(
                flat_index_of(x as int, y as int, old(self).spec_width() as int),
                new_value,
            ),
            r is None ==> final(self).cells() == old(self).cells(),
            forall|cx: int, cy: int|
                #[trigger] final(self).spec_get(cx, cy) == if cx == x && cy == y && r is Some {
                    Some(new_value)
                } else {
                    old(self).spec_get(cx, cy)
                },
    {
        let ghost before = *self;
        match self.calculate_flat_index(x, y) {
            Some(flat_index) => {
                self.flat_grid[flat_index] = new_value;
                proof {
                    Self::law_read_after_write(before, *self, x as int, y as int, new_value);
                }
                Some(())
            },
            None => None,
        }
    }

    /// Turns the flat (true) index in a grid into an (x, y) index pair: the one pair with
    /// `x < grid_width` whose flat index is `flat_index`. It inverts the flattening of
    /// coordinates.
    pub fn unflatten_index(flat_index: usize, grid_width: usize) -> (r: (usize, usize))
        requires
            grid_width > 0,
        ensures
            (r.0 as int, r.1 as int) == unflattened(flat_index as int, grid_width as int),
            r.0 < grid_width,
            flat_index_of(r.0 as int, r.1 as int, grid_width as int) == flat_index,
            forall|x: int, y: int|
                0 <= x < grid_width && 0 <= y && #[trigger] flat_index_of(x, y, grid_width as int)
                    == flat_index ==> r.0 == x && r.1 == y,
    {
        let r = (flat_index % grid_width, flat_index / grid_width);
        proof {
            law_flatten_after_unflatten(flat_index as int, grid_width as int);
            assert forall|x: int, y: int|
                0 <= x < grid_width && 0 <= y && #[trigger] flat_index_of(x, y, grid_width as int)
                    == flat_index implies r.0 == x && r.1 == y by {
                lemma_flat_index_injective(x, y, r.0 as int, r.1 as int, grid_width as int);
            }
        }
        r
    }

    /// Applies a function to each cell of the grid together with the cell's coordinates
    /// `(x, y)`, immutably, cell after cell in row-major order. Every cell is handed to the
    /// consumer with its coordinates.
    pub fn for_each<F>(&self, consumer: F)
        where
            F: Fn(&T, (usize, usize)),
        requires
            forall|i: int|
                0 <= i < self.cells().len() ==> call_requires(
                    consumer,
                    (
                        &#[trigger] self.cells()[i],
                        (
                            unflattened(i, self.spec_width() as int).0 as usize,
                            unflattened(i, self.spec_width() as int).1 as usize,
                        ),
                    ),
                ),
        ensures
            forall|i: int|
                0 <= i < self.cells().len() ==> call_ensures(
                    consumer,
                    (
                        &#[trigger] self.cells()[i],
                        (
                            unflattened(i, self.spec_width() as int).0 as usize,
                            unflattened(i, self.spec_width() as int).1 as usize,
                        ),
                    ),
                    (),
                ),
    {
        proof {
            use_type_invariant(self);
        }
        let cells_count = self.flat_grid.len();
        let mut flat_index: usize = 0;
        while flat_index < cells_count
            invariant
                cells_count > 0 ==> self.spec_width() > 0,
                cells_count == self.cells().len(),
                flat_index <= cells_count,
                forall|i: int|
                    0 <= i < self.cells().len() ==> call_requires(
                        consumer,
                        (
                            &#[trigger] self.cells()[i],
                            (
                                unflattened(i, self.spec_width() as int).0 as usize,
                                unflattened(i, self.spec_width() as int).1 as usize,
                            ),
                        ),
                    ),
                forall|i: int|
                    0 <= i < flat_index ==> call_ensures(
                        consumer,
                        (
                            &#[trigger] self.cells()[i],
                            (
                                unflattened(i, self.spec_width() as int).0 as usize,
                                unflattened(i, self.spec_width() as int).1 as usize,
                            ),
                        ),
                        (),
                    ),
            decreases cells_count - flat_index,
        {
            let coords = Self::unflatten_index(flat_index, self.width);
            consumer(&self.flat_grid[flat_index], coords);
            flat_index = flat_index + 1;
        }
    }

    /// Replaces each cell of the grid by what `consumer` makes of its old value and its
    /// coordinates `(x, y)`, cell after cell in row-major order.
    ///
    /// The consumer reads the cell and returns its new value rather than writing through a
    /// mutable reference: that is the form of closure whose effect Verus can state.
    pub fn for_each_mut<F>(&mut self, consumer: F)
        where
            F: Fn(&T, (usize, usize)) -> T,
        requires
            forall|i: int|
                0 <= i < old(self).cells().len() ==> call_requires(
                    consumer,
                    (
                        &#[trigger] old(self).cells()[i],
                        (
                            unflattened(i, old(self).spec_width() as int).0 as usize,
                            unflattened(i, old(self).spec_width() as int).1 as usize,
                        ),
                    ),
                ),
        ensures
            final(self).spec_width() == old(self).spec_width(),
            final(self).spec_height() == old(self).spec_height(),
            final(self).cells().len() == old(self).cells().len(),
            forall|i: int|
                0 <= i < old(self).cells().len() ==> call_ensures(
                    consumer,
                    (
                        &old(self).cells()[i],
                        (
                            unflattened(i, old(self).spec_width() as int).0 as usize,
                            unflattened(i, old(self).spec_width() as int).1 as usize,
                        ),
                    ),
                    #[trigger] final(self).cells()[i],
                ),
    {
        proof {
            use_type_invariant(&*self);
        }
        let ghost before = self.cells();
        let cells_count = self.flat_grid.len();
        let mut flat_index: usize = 0;
        while flat_index < cells_count
            invariant
                cells_count > 0 ==> old(self).spec_width() > 0 && old(self).spec_height() > 0,
                    self.spec_width() == old(self).spec_width(),
                self.spec_height() == old(self).spec_height(),
                before == old(self).cells(),
                cells_count == before.len(),
                self.cells().len() == before.len(),
                flat_index <= cells_count,
                forall|i: int|
                    flat_index <= i < before.len() ==> #[trigger] self.cells()[i] == before[i],
                forall|i: int|
                    0 <= i < before.len() ==> call_requires(
                        consumer,
                        (
                            &#[trigger] before[i],
                            (
                                unflattened(i, old(self).spec_width() as int).0 as usize,
                                unflattened(i, old(self).spec_width() as int).1 as usize,
                            ),
                        ),
                    ),
                forall|i: int|
                    0 <= i < flat_index ==> call_ensures(
                        consumer,
                        (
                            &before[i],
                            (
                                unflattened(i, old(self).spec_width() as int).0 as usize,
                                unflattened(i, old(self).spec_width() as int).1 as usize,
                            ),
                        ),
                        #[trigger] self.cells()[i],
                    ),
            decreases cells_count - flat_index,
        {
            let coords = Self::unflatten_index(flat_index, self.width);
            let new_value = consumer(&self.flat_grid[flat_index], coords);
            self.flat_grid[flat_index] = new_value;
            flat_index = flat_index + 1;
        }
    }

    /// Changes the value in each cell by calling `filler` again and again.
    ///
    /// The filler is an `Fn`, not an `FnMut`: Verus states what a call returns only for a closure
    /// whose state no call changes.
    pub fn set_all_with<F>(&mut self, filler: F)
        where
            F: Fn() -> T,
        requires
            call_requires(filler, ()),
        ensures
            final(self).spec_width() == old(self).spec_width(),
            final(self).spec_height() == old(self).spec_height(),
            final(self).cells().len() == old(self).cells().len(),
            forall|i: int|
                0 <= i < final(self).cells().len() ==> call_ensures(
                    filler,
                    (),
                    #[trigger] final(self).cells()[i],
                ),
    {
        proof {
            use_type_invariant(&*self);
        }
        let cells_count = self.flat_grid.len();
        let mut flat_index: usize = 0;
        while flat_index < cells_count
            invariant
                cells_count > 0 ==> self.spec_width() > 0 && self.spec_height() > 0,
                self.spec_width() == old(self).spec_width(),
                self.spec_height() == old(self).spec_height(),
                cells_count == old(self).cells().len(),
                self.cells().len() == cells_count,
                flat_index <= cells_count,
                call_requires(filler, ()),
                forall|i: int|
                    0 <= i < flat_index ==> call_ensures(filler, (), #[trigger] self.cells()[i]),
            decreases cells_count - flat_index,
        {
            self.flat_grid[flat_index] = filler();
            flat_index = flat_index + 1;
        }
    }
}

impl<T: Copy> Grid<T> {
    /// Changes the value in each cell to `value`.
    pub fn set_all(&mut self, value: T)
        ensures
            final(self).spec_width() == old(self).spec_width(),
            final(self).spec_height() == old(self).spec_height(),
            final(self).cells().len() == old(self).cells().len(),
            forall|i: int| 0 <= i < final(self).cells().len() ==> #[trigger] final(self).cells()[i] == value,
            forall|x: int, y: int|
                #[trigger] final(self).spec_get(x, y) == if old(self).in_bounds(x, y) {
                    Some(value)
                } else {
                    None
                },
    {
        proof {
            use_type_invariant(&*self);
        }
        let cells_count = self.flat_grid.len();
        let mut flat_index: usize = 0;
        while flat_index < cells_count
            invariant
                cells_count > 0 ==> self.spec_width() > 0 && self.spec_height() > 0,
                self.spec_width() == old(self).spec_width(),
                self.spec_height() == old(self).spec_height(),
                cells_count == old(self).cells().len(),
                self.cells().len() == cells_count,
                flat_index <= cells_count,
                forall|i: int| 0 <= i < flat_index ==> #[trigger] self.cells()[i] == value,
            decreases cells_count - flat_index,
        {
            self.flat_grid[flat_index] = value;
            flat_index = flat_index + 1;
        }
    }
}

/// Moves the rows `rows[from..]` behind the cells already collected in `flat`, row after row.
pub(crate) fn append_rows<T>(flat: &mut Vec<T>, rows: &mut Vec<Vec<T>>, from: usize)
    requires
        from <= old(rows)@.len(),
    ensures
        final(rows)@.len() == old(rows)@.len(),
        final(flat)@ == old(flat)@ + rows_view(old(rows)@).subrange(from as int, old(rows)@.len() as int).flatten(),
    decreases old(rows)@.len() - from,
{
    if from == rows.len() {
        assert(rows_view(rows@).subrange(from as int, rows@.len() as int) =~= Seq::<Seq<T>>::empty());
        assert(flat@ + Seq::<T>::empty() =~= flat@);
        return;
    }
    let ghost rows_before = rows@;
    let ghost flat_before = flat@;
    let mut row: Vec<T> = Vec::new();
    std::mem::swap(&mut row, &mut rows[from]);
    assert(row@ == rows_before[from as int]@);
    let ghost rows_mid = rows@;
    flat.append(&mut row);
    append_rows(flat, rows, from + 1);
    proof {
        let tail = rows_view(rows_before).subrange(from as int, rows_before.len() as int);
        let rest_after = rows_view(rows_before).subrange(from + 1, rows_before.len() as int);
        assert(rows_view(rows_mid).subrange(from + 1, rows_mid.len() as int) =~= rest_after) by {
            assert forall|j: int| from + 1 <= j < rows_mid.len() implies #[trigger] rows_mid[j]
                == rows_before[j] by {}
        }
        assert(tail.first() == rows_before[from as int]@);
        assert(tail.drop_first() =~= rest_after);
        assert(flat@ =~= flat_before + tail.flatten());
    }
}

impl<T> vstd::std_specs::convert::FromSpecImpl<Vec<Vec<T>>> for Grid<T> {
    open spec fn obeys_from_spec() -> bool {
        false
    }

    open spec fn from_spec(raw_grid: Vec<Vec<T>>) -> Self {
        arbitrary()
    }
}

impl<T> From<Vec<Vec<T>>> for Grid<T> {
    /// Builds a grid from its rows: the height is the number of rows, the width the length of
    /// the first row, and the cells are the rows' values, row after row. Without rows, or with
    /// an empty first row, the grid is empty.
    fn from(raw_grid: Vec<Vec<T>>) -> (grid: Self)
        ensures
            raw_grid@.len() == 0 || raw_grid@[0]@.len() == 0 ==> {
                &&& grid.spec_width() == 0
                &&& grid.spec_height() == 0
                &&& grid.cells().len() == 0
            },
            raw_grid@.len() > 0 && raw_grid@[0]@.len() > 0 ==> {
                &&& grid.spec_width() == raw_grid@[0]@.len()
                &&& grid.spec_height() == raw_grid@.len()
                &&& grid.cells() == rows_view(raw_grid@).flatten()
            },
            (forall|j: int| 0 <= j < raw_grid@.len() ==> (#[trigger] raw_grid@[j])@.len() == raw_grid@[0]@.len())
                ==> {
                &&& grid.is_rectangular()
                &&& forall|x: int, y: int|
                    grid.in_bounds(x, y) ==> grid.cell(x, y) == #[trigger] raw_grid@[y]@[x]
            },
    {
        let height = raw_grid.len();
        if height == 0 {
            return Grid { width: 0, height: 0, flat_grid: Vec::new() };
        }
        let width = raw_grid[0].len();
        if width == 0 {
            return Grid { width: 0, height: 0, flat_grid: Vec::new() };
        }
        let ghost rows = raw_grid@;
        let mut remaining_rows = raw_grid;
        let mut flat_grid: Vec<T> = Vec::new();
        append_rows(&mut flat_grid, &mut remaining_rows, 0);
        proof {
            assert(rows_view(rows).subrange(0, rows.len() as int) =~= rows_view(rows));
            assert(Seq::<T>::empty() + rows_view(rows).flatten() =~= rows_view(rows).flatten());
            assert(rows_view(rows) =~= seq![rows_view(rows)[0]] + rows_view(rows).drop_first());
            vstd::seq_lib::lemma_flatten_concat(seq![rows_view(rows)[0]], rows_view(rows).drop_first());
            seq![rows_view(rows)[0]].lemma_flatten_one_element();
            assert(flat_grid@.len() >= width);
            if forall|j: int| 0 <= j < rows.len() ==> (#[trigger] rows[j])@.len() == width {
                assert forall|j: int| 0 <= j < rows.len() implies (#[trigger] rows_view(rows)[j]).len()
                    == width by {
                    assert(rows_view(rows)[j] == rows[j]@);
                }
                lemma_flatten_rectangular(rows_view(rows), width as int);
                assert forall|x: int, y: int| 0 <= x < width && 0 <= y < height implies
                    flat_grid@[flat_index_of(x, y, width as int)] == #[trigger] rows[y]@[x] by {
                    assert(rows_view(rows)[y] == rows[y]@);
                }
            }
        }
        Grid { width, height, flat_grid }
    }
}

} // verus!