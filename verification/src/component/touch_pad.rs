//! Touch pads.
use vstd::prelude::*;
use super::ComponentData;

verus! {

/// Shape of a touch pad's surface.
#[derive(Copy, Clone, Debug, PartialEq, Eq, Structural)]
pub enum TouchPadShape {
    Circle,
    Rectangle,
}

/// Description of a touch pad.
#[derive(Copy, Clone, PartialEq, Eq, Structural)]
pub struct TouchPadInfo {
    pub shape: TouchPadShape,
    pub is_button: bool,
}

impl TouchPadInfo {
    /// A description with the given shape, clickable or not.
    pub fn new(shape: TouchPadShape, is_button: bool) -> (r: Self)
        ensures
            r.shape == shape,
            r.is_button == is_button,
    {
        TouchPadInfo { shape, is_button }
    }
}

/// State of a touch pad: where it is touched, and whether it is touched and
/// pressed.
#[derive(Copy, Clone, Default, PartialEq, Eq, Structural)]
pub struct TouchPad {
    pub touch_x: u16,
    pub touch_y: u16,
    pub pressed: bool,
    pub touched: bool,
}

impl ComponentData for TouchPad {
    type Config = ();
    type Info = TouchPadInfo;

    open spec fn updated(from: Self) -> Self {
        from
    }

    fn update(&mut self, from: &Self) {
        *self = *from;
    }

    /// Touch pads have nothing to configure.
    fn configure(&mut self, config: &())
        ensures
            *final(self) == *old(self),
    {
    }
}

} // verus!
