use vstd::arithmetic::div_mod::lemma_small_mod;
use vstd::prelude::*;

use crate::address::{lemma_wrap_sub_step, wrap_sub, Address};
use crate::camera::Camera;
use crate::direction::Direction;
use crate::size::Size;

verus! {

/// A camera anchored so that a fixed center sits exactly in the middle of
/// the viewport. It holds the center and a half-extent pair; the viewport
/// extents are twice the half-extents plus one, hence always odd.
pub struct CenteredCamera {
    address: Address,
    size: Size,
}

impl CenteredCamera {
    /// The configured center.
    pub closed spec fn spec_center(self) -> Address {
        self.address
    }

    /// The configured half-extents.
    pub closed spec fn spec_half(self) -> Size {
        self.size
    }

    pub fn new(center: Address, half: Size) -> (r: CenteredCamera)
        ensures
            r.spec_center() == center,
            r.spec_half() == half,
    {
        CenteredCamera { address: center, size: half }
    }
}

impl Default for CenteredCamera {
    /// Centered on the origin with half-extents 16 and 64, so the viewport
    /// is 33 rows by 129 columns.
    fn default() -> (r: CenteredCamera)
        ensures
            r.spec_center() == (Address { row: 0, column: 0 }),
            r.spec_half() == (Size { height: 16, width: 64 }),
    {
        let address = Address::default();
        let size = Size::new(16, 64);
        CenteredCamera { address, size }
    }
}

impl Camera for CenteredCamera {
    /// The doubled half-extents stay within the machine word.
    open spec fn wf(&self) -> bool {
        &&& self.spec_half().height <= (usize::MAX - 1) / 2
        &&& self.spec_half().width <= (usize::MAX - 1) / 2
    }

    /// The configured center is a valid position of the space.
    open spec fn fits(&self, space_height: nat, space_width: nat) -> bool {
        self.spec_center().valid(space_height, space_width)
    }

    /// The anchor: the center moved up by the half-height and left by the
    /// half-width, both with wraparound.
    open spec fn spec_position(&self, space_height: nat, space_width: nat) -> Address {
        Address {
            row: wrap_sub(
                self.spec_center().row as int,
                self.spec_half().height as int,
                space_height as int,
            ) as usize,
            column: wrap_sub(
                self.spec_center().column as int,
                self.spec_half().width as int,
                space_width as int,
            ) as usize,
        }
    }

    open spec fn spec_height(&self) -> nat {
        (2 * self.spec_half().height + 1) as nat
    }

    open spec fn spec_width(&self) -> nat {
        (2 * self.spec_half().width + 1) as nat
    }

    /// Walks from the center one wraparound step at a time: up
    /// `half.height` times, then left `half.width` times. Repeated single
    /// steps keep the anchor valid by construction even when the center
    /// sits next to an edge.
    fn position(&self, space_height: usize, space_width: usize) -> (r: Address) {
        let ghost center = self.address;
        proof {
            lemma_small_mod(center.row as nat, space_height as nat);
            lemma_small_mod(center.column as nat, space_width as nat);
        }
        let mut address = self.address;
        for i in 0..self.size.height
            invariant
                self.address == center,
                center.valid(space_height as nat, space_width as nat),
                address.valid(space_height as nat, space_width as nat),
                address.column == center.column,
                address.row as int == wrap_sub(center.row as int, i as int, space_height as int),
        {
            proof {
                lemma_wrap_sub_step(center.row as int, i as int, space_height as int);
            }
            address = address.find_neighbor(Direction::Up, space_height, space_width);
        }
        let ghost anchor_row = address.row;
        for i in 0..self.size.width
            invariant
                self.address == center,
                center.valid(space_height as nat, space_width as nat),
                address.valid(space_height as nat, space_width as nat),
                address.row == anchor_row,
                address.column as int == wrap_sub(
                    center.column as int,
                    i as int,
                    space_width as int,
                ),
        {
            proof {
                lemma_wrap_sub_step(center.column as int, i as int, space_width as int);
            }
            address = address.find_neighbor(Direction::Left, space_height, space_width);
        }
        address
    }

    fn height(&self) -> (r: usize) {
        self.size.height * 2 + 1
    }

    fn width(&self) -> (r: usize) {
        self.size.width * 2 + 1
    }
}

/// Law: a centered camera's viewport extents are twice its half-extents
/// plus one, for every configuration.
pub proof fn lemma_centered_extents(c: CenteredCamera)
    ensures
        c.spec_height() == 2 * c.spec_half().height + 1,
        c.spec_width() == 2 * c.spec_half().width + 1,
{
}

} // verus!
