//! Components: the kinds of state a device can expose.
use vstd::prelude::*;

pub mod analogs;
pub mod buttons;
pub mod controller;
pub mod motion;
pub mod mouse;
pub mod touch_pad;

verus! {

/// Settings that configure a component.
pub trait ComponentConfig: Default {
}

impl<T: Default> ComponentConfig for T {
}

/// State of a component that a device updates and a configuration adjusts.
pub trait ComponentData: Default + Sized {
    type Config: ComponentConfig;
    type Info;

    /// The state after `update(from)`: each component copies `from` whole.
    spec fn updated(from: Self) -> Self;

    /// Replaces the state by the one reported in `from`.
    fn update(&mut self, from: &Self)
        ensures
            *final(self) == Self::updated(*from),
    ;

    /// Adjusts the state to the configuration.
    fn configure(&mut self, config: &Self::Config);
}

/// The kinds of component.
#[derive(Copy, Clone, Debug, PartialEq, Eq, Hash, Structural)]
pub enum ComponentKind {
    Analogs,
    Buttons,
    Controller,
    Motion,
    Mouse,
    TouchPad,
}

impl ComponentKind {
    /// The kind's number (its place in the declaration, from 0).
    pub open spec fn spec_index(self) -> u8 {
        match self {
            ComponentKind::Analogs => 0,
            ComponentKind::Buttons => 1,
            ComponentKind::Controller => 2,
            ComponentKind::Motion => 3,
            ComponentKind::Mouse => 4,
            ComponentKind::TouchPad => 5,
        }
    }

    /// The kind's number (its place in the declaration, from 0).
    pub fn index(&self) -> (i: u8)
        ensures
            i == self.spec_index(),
    {
        match self {
            ComponentKind::Analogs => 0,
            ComponentKind::Buttons => 1,
            ComponentKind::Controller => 2,
            ComponentKind::Motion => 3,
            ComponentKind::Mouse => 4,
            ComponentKind::TouchPad => 5,
        }
    }

    /// Name of the kind as shown to users.
    pub open spec fn label(self) -> Seq<char> {
        match self {
            ComponentKind::Analogs => "Analogs"@,
            ComponentKind::Buttons => "Buttons"@,
            ComponentKind::Controller => "Controller"@,
            ComponentKind::Motion => "Motion"@,
            ComponentKind::Mouse => "Mouse"@,
            ComponentKind::TouchPad => "Touch Pad"@,
        }
    }

    /// Name of the kind as shown to users.
    pub fn name(&self) -> (s: &'static str)
        ensures
            s@ == self.label(),
    {
        match self {
            ComponentKind::Analogs => "Analogs",
            ComponentKind::Buttons => "Buttons",
            ComponentKind::Controller => "Controller",
            ComponentKind::Motion => "Motion",
            ComponentKind::Mouse => "Mouse",
            ComponentKind::TouchPad => "Touch Pad",
        }
    }
}

} // verus!
