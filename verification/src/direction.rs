use vstd::prelude::*;

verus! {

/// One of the four compass directions a grid step can take.
#[derive(Copy, Clone, PartialEq, Eq, Structural, Debug)]
pub enum Direction {
    Up,
    Down,
    Left,
    Right,
}

} // verus!
