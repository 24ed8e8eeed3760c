use vstd::prelude::*;

use crate::drawable::Drawable;
use crate::occupant::Occupant;

verus! {

/// One grid cell: either empty or holding an occupant. An empty cell draws
/// the fixed background glyph `'X'`.
#[derive(Copy, Clone, PartialEq, Eq, Structural, Debug)]
pub struct Cell {
    occupant: Option<Occupant>,
}

impl Cell {
    pub closed spec fn spec_occupant(self) -> Option<Occupant> {
        self.occupant
    }

    pub fn new(occupant: Option<Occupant>) -> (r: Cell)
        ensures
            r.spec_occupant() == occupant,
    {
        Cell { occupant }
    }
}

impl Default for Cell {
    /// An empty cell, which draws the background glyph.
    fn default() -> (r: Cell)
        ensures
            r.spec_occupant() is None,
            r.spec_draw() == 'X',
    {
        let occupant = None;
        Cell { occupant }
    }
}

impl Drawable for Cell {
    open spec fn spec_draw(&self) -> char {
        match self.spec_occupant() {
            Some(occupant) => occupant.spec_draw(),
            None => 'X',
        }
    }

    fn draw(&self) -> (r: char) {
        match &self.occupant {
            Some(occupant) => occupant.draw(),
            None => 'X',
        }
    }
}

} // verus!
