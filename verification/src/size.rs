use vstd::prelude::*;

verus! {

/// A pair of vertical and horizontal extents, in cells.
#[derive(Copy, Clone, PartialEq, Eq, Structural, Debug)]
pub struct Size {
    pub height: usize,
    pub width: usize,
}

impl Size {
    pub fn new(height: usize, width: usize) -> (r: Size)
        ensures
            r.height == height,
            r.width == width,
    {
        Size { height, width }
    }
}

impl Default for Size {
    /// The empty size: zero height, zero width.
    fn default() -> (r: Size)
        ensures
            r.height == 0,
            r.width == 0,
    {
        Size { height: 0, width: 0 }
    }
}

} // verus!
