//! Generational handles, by which entities refer to one another.

use vstd::prelude::*;

verus! {

/// The name of an entity in its container: a slot and the generation of
/// the slot's occupant. Generation zero names nothing.
#[derive(Copy, Clone, PartialEq, Eq, Structural, Hash, Debug)]
pub struct Handle {
    pub index: u32,
    pub generation: u32,
}

impl Handle {
    /// The handle that names nothing.
    pub open spec fn spec_none() -> Handle {
        Handle { index: 0, generation: 0 }
    }

    pub fn none() -> (r: Handle)
        ensures
            r == Handle::spec_none(),
    {
        Handle { index: 0, generation: 0 }
    }

    pub fn new(index: u32, generation: u32) -> (r: Handle)
        ensures
            r == (Handle { index, generation }),
    {
        Handle { index, generation }
    }

    pub open spec fn spec_is_none(self) -> bool {
        self.index == 0 && self.generation == 0
    }

    pub fn is_none(&self) -> (r: bool)
        ensures
            r == self.spec_is_none(),
            r == (*self == Handle::spec_none()),
    {
        self.index == 0 && self.generation == 0
    }

    pub fn is_some(&self) -> (r: bool)
        ensures
            r == !self.spec_is_none(),
    {
        !self.is_none()
    }
}

} // verus!
