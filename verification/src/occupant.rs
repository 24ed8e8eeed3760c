use vstd::prelude::*;

use crate::drawable::Drawable;

verus! {

/// What kind of occupant sits in a cell.
#[derive(Copy, Clone, PartialEq, Eq, Structural, Debug)]
pub enum Class {
    Player,
    Enemy,
    Wall,
}

/// Something standing on a grid cell; drawn by its class.
#[derive(Copy, Clone, PartialEq, Eq, Structural, Debug)]
pub struct Occupant {
    class: Class,
}

impl Occupant {
    pub closed spec fn spec_class(self) -> Class {
        self.class
    }

    pub fn new(class: Class) -> (r: Occupant)
        ensures
            r.spec_class() == class,
    {
        Occupant { class }
    }
}

impl Drawable for Occupant {
    open spec fn spec_draw(&self) -> char {
        match self.spec_class() {
            Class::Enemy => 'E',
            Class::Player => 'P',
            Class::Wall => 'W',
        }
    }

    fn draw(&self) -> (r: char) {
        match self.class {
            Class::Enemy => 'E',
            Class::Player => 'P',
            Class::Wall => 'W',
        }
    }
}

} // verus!
