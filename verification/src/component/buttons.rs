//! A plain bank of up to 64 buttons.
use vstd::prelude::*;
use super::ComponentData;

verus! {

/// Which of the 64 buttons a device has, one bit each.
#[derive(Copy, Clone, PartialEq, Eq, Structural)]
pub struct ButtonsInfo {
    pub buttons: u64,
}

impl Default for ButtonsInfo {
    /// No button.
    fn default() -> (r: Self)
        ensures
            r.buttons == 0,
    {
        ButtonsInfo { buttons: 0 }
    }
}

/// The state of 64 buttons, one bit each.
#[derive(Copy, Clone, PartialEq, Eq, Structural)]
pub struct Buttons {
    pub buttons: u64,
}

impl Default for Buttons {
    /// No button pressed.
    fn default() -> (r: Self)
        ensures
            r.buttons == 0,
    {
        Buttons { buttons: 0 }
    }
}

impl ComponentData for Buttons {
    type Config = ();
    type Info = ButtonsInfo;

    open spec fn updated(from: Self) -> Self {
        from
    }

    fn update(&mut self, from: &Self) {
        *self = *from;
    }

    /// Buttons have nothing to configure.
    fn configure(&mut self, config: &())
        ensures
            *final(self) == *old(self),
    {
    }
}

} // verus!
