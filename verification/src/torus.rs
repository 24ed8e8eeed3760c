use vstd::arithmetic::mul::{lemma_mul_inequality, lemma_mul_is_distributive_add_other_way};
use vstd::prelude::*;

use crate::address::Address;

verus! {

/// Dense row-major storage of `height * width` cells of a
/// default-constructible type, addressed through `index`. The flattening
/// `row * width + column` is the single source of truth for addressing.
pub struct Torus<T: Default> {
    pub height: usize,
    pub width: usize,
    pub cells: Vec<T>,
}

/// Row-major flattening of a `(row, column)` pair on a grid `width` wide.
pub open spec fn spec_index(row: int, column: int, width: int) -> int {
    row * width + column
}

/// Law: on an `height x width` grid, the row-major index of every valid
/// position lies in `[0, height * width)`.
pub proof fn lemma_index_in_range(row: int, column: int, height: int, width: int)
    requires
        0 <= row < height,
        0 <= column < width,
    ensures
        0 <= spec_index(row, column, width) < height * width,
{
    lemma_mul_is_distributive_add_other_way(width, row, 1);
    lemma_mul_inequality(row + 1, height, width);
}

/// Law: row-major flattening is injective on valid positions; together with
/// `lemma_index_in_range` it is a bijection between the valid `(row, column)`
/// pairs and `[0, height * width)`.
pub proof fn lemma_index_injective(
    row1: int,
    column1: int,
    row2: int,
    column2: int,
    height: int,
    width: int,
)
    requires
        0 <= row1 < height,
        0 <= column1 < width,
        0 <= row2 < height,
        0 <= column2 < width,
        spec_index(row1, column1, width) == spec_index(row2, column2, width),
    ensures
        row1 == row2,
        column1 == column2,
{
    if row1 < row2 {
        lemma_mul_is_distributive_add_other_way(width, row1, 1);
        lemma_mul_inequality(row1 + 1, row2, width);
    }
    if row2 < row1 {
        lemma_mul_is_distributive_add_other_way(width, row2, 1);
        lemma_mul_inequality(row2 + 1, row1, width);
    }
}

impl<T: Default> Torus<T> {
    /// The cell vector holds exactly one element per grid position.
    pub open spec fn wf(self) -> bool {
        self.cells.len() == self.height * self.width
    }

    /// Allocates an `height x width` grid with every cell default-valued.
    /// The caller guards against a cell count beyond the addressable size.
    pub fn new(height: usize, width: usize) -> (r: Torus<T>)
        requires
            height * width <= usize::MAX,
        ensures
            r.height == height,
            r.width == width,
            r.wf(),
            forall|i: int|
                0 <= i < r.cells.len() ==> call_ensures(T::default, (), #[trigger] r.cells[i]),
    {
        let cells = Torus::<T>::build_cells(height, width);
        Torus { width, height, cells }
    }

    /// One default-valued cell per grid position, in row-major order.
    pub fn build_cells(height: usize, width: usize) -> (r: Vec<T>)
        requires
            height * width <= usize::MAX,
        ensures
            r.len() == height * width,
            forall|i: int| 0 <= i < r.len() ==> call_ensures(T::default, (), #[trigger] r[i]),
    {
        let count = height * width;
        let mut cells = Vec::with_capacity(count);
        for i in 0..count
            invariant
                cells.len() == i,
                forall|k: int| 0 <= k < i ==> call_ensures(T::default, (), #[trigger] cells[k]),
        {
            cells.push(Default::default());
        }
        cells
    }

    /// Row-major flattening. Callers must pass a position that is valid on
    /// this grid; the result then indexes into `cells`.
    pub fn index(&self, row: usize, column: usize) -> (r: usize)
        requires
            self.wf(),
            row < self.height,
            column < self.width,
        ensures
            r == spec_index(row as int, column as int, self.width as int),
            r < self.cells.len(),
    {
        proof {
            lemma_index_in_range(row as int, column as int, self.height as int, self.width as int);
        }
        row * self.width + column
    }

    /// `index`, taking the position as an `Address`.
    pub fn address_index(&self, address: Address) -> (r: usize)
        requires
            self.wf(),
            address.valid(self.height as nat, self.width as nat),
        ensures
            r == spec_index(address.row as int, address.column as int, self.width as int),
            r < self.cells.len(),
    {
        proof {
            lemma_index_in_range(
                address.row as int,
                address.column as int,
                self.height as int,
                self.width as int,
            );
        }
        address.row * self.width + address.column
    }
}

} // verus!
