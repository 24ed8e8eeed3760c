use vstd::prelude::*;

use crate::address::Address;

verus! {

/// The capability of projecting a viewport onto a space: a top-left anchor
/// computed against the space's extents, plus fixed viewport extents of the
/// camera's own.
pub trait Camera {
    /// The camera's own configuration is internally consistent.
    spec fn wf(&self) -> bool;

    /// The camera can be projected onto a space of the given extents.
    spec fn fits(&self, space_height: nat, space_width: nat) -> bool;

    /// The anchor the camera reports for a space of the given extents.
    spec fn spec_position(&self, space_height: nat, space_width: nat) -> Address;

    /// The viewport height.
    spec fn spec_height(&self) -> nat;

    /// The viewport width.
    spec fn spec_width(&self) -> nat;

    /// The viewport's top-left anchor on a space of the given extents;
    /// always a valid position of that space.
    fn position(&self, space_height: usize, space_width: usize) -> (r: Address)
        requires
            self.wf(),
            self.fits(space_height as nat, space_width as nat),
        ensures
            r == self.spec_position(space_height as nat, space_width as nat),
            r.valid(space_height as nat, space_width as nat),
    ;

    fn height(&self) -> (r: usize)
        requires
            self.wf(),
        ensures
            r as nat == self.spec_height(),
    ;

    fn width(&self) -> (r: usize)
        requires
            self.wf(),
        ensures
            r as nat == self.spec_width(),
    ;
}

} // verus!
