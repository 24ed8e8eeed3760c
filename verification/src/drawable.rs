use vstd::prelude::*;

verus! {

/// The capability of producing a single-character visual representation.
pub trait Drawable {
    /// The character this value shows as.
    spec fn spec_draw(&self) -> char;

    /// Produces exactly the character that `spec_draw` states.
    fn draw(&self) -> (r: char)
        ensures
            r == self.spec_draw(),
    ;
}

} // verus!
