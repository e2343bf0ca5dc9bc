//! The mouse component, which carries no state yet.
use vstd::prelude::*;

verus! {

/// Description of a mouse.
#[derive(Copy, Clone, Default, PartialEq, Eq, Structural)]
pub struct MouseInfo {
}

/// State of a mouse.
#[derive(Copy, Clone, Default, PartialEq, Eq, Structural)]
pub struct Mouse {
}

impl Mouse {
    /// Copies `from`.
    pub fn update(&mut self, from: &Self)
        ensures
            *final(self) == *from,
    {
        *self = *from;
    }
}

} // verus!
