use vstd::prelude::*;

use crate::cell::Cell;
use crate::drawable::Drawable;
use crate::torus::{spec_index, Torus};

verus! {

/// The world: fixed extents set once at construction, and a toroidal grid
/// holding one cell per position.
pub struct Space {
    height: usize,
    width: usize,
    torus: Torus<Cell>,
}

impl Space {
    pub closed spec fn spec_height(self) -> nat {
        self.height as nat
    }

    pub closed spec fn spec_width(self) -> nat {
        self.width as nat
    }

    /// The character the cell at `(row, column)` draws.
    pub closed spec fn spec_draw(self, row: int, column: int) -> char {
        self.torus.cells[spec_index(row, column, self.width as int)].spec_draw()
    }

    /// The grid matches the space's extents and holds one cell per position.
    pub closed spec fn wf(self) -> bool {
        &&& self.torus.wf()
        &&& self.torus.height == self.height
        &&& self.torus.width == self.width
    }

    pub fn height(&self) -> (r: usize)
        ensures
            r == self.spec_height(),
    {
        self.height
    }

    pub fn width(&self) -> (r: usize)
        ensures
            r == self.spec_width(),
    {
        self.width
    }

    /// The character drawn by the cell at `(row, column)`. Callers must
    /// pass a position that is valid on this space.
    pub fn draw(&self, row: usize, column: usize) -> (r: char)
        requires
            self.wf(),
            row < self.spec_height(),
            column < self.spec_width(),
        ensures
            r == self.spec_draw(row as int, column as int),
    {
        let cell_index = self.torus.index(row, column);
        self.torus.cells[cell_index].draw()
    }
}

impl Default for Space {
    /// A 32-row, 64-column space with every cell empty, so every position
    /// draws the background glyph.
    fn default() -> (r: Space)
        ensures
            r.wf(),
            r.spec_height() == 32,
            r.spec_width() == 64,
            forall|i: int, j: int|
                0 <= i < 32 && 0 <= j < 64 ==> #[trigger] r.spec_draw(i, j) == 'X',
    {
        let height: usize = 32;
        let width: usize = 64;
        let torus = Torus::new(height, width);
        let space = Space { height, width, torus };
        proof {
            assert forall|i: int, j: int|
                0 <= i < 32 && 0 <= j < 64 implies #[trigger] space.spec_draw(i, j) == 'X' by {
                assert(0 <= spec_index(i, j, 64) < 2048);
                assert(call_ensures(Cell::default, (), space.torus.cells[spec_index(i, j, 64)]));
            }
        }
        space
    }
}

} // verus!
