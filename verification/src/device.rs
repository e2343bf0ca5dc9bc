//! The description of a device: its name, its optional stable id and the
//! components it has.
use vstd::prelude::*;
use crate::component::ComponentKind;
use crate::component::analogs::AnalogsInfo;
use crate::component::buttons::ButtonsInfo;
use crate::component::controller::ControllerInfo;
use crate::component::motion::MotionInfo;
use crate::component::touch_pad::TouchPadInfo;

verus! {

/// What a device is and which components it has, in order.
#[derive(Clone, PartialEq, Eq)]
pub struct DeviceInfo {
    pub name: String,
    pub id: Option<String>,
    /// If this device has an id, the device config will be loaded without user interaction
    pub autoload_config: bool,
    pub controllers: Vec<ControllerInfo>,
    pub motions: Vec<MotionInfo>,
    pub analogs: Vec<AnalogsInfo>,
    pub buttons: Vec<ButtonsInfo>,
    pub touch_pads: Vec<TouchPadInfo>,
}

impl DeviceInfo {
    /// How many components of `kind` the device has (it has no list of
    /// mice, so none of them).
    pub open spec fn component_count(self, kind: ComponentKind) -> nat {
        match kind {
            ComponentKind::Controller => self.controllers@.len(),
            ComponentKind::Motion => self.motions@.len(),
            ComponentKind::Analogs => self.analogs@.len(),
            ComponentKind::Buttons => self.buttons@.len(),
            ComponentKind::TouchPad => self.touch_pads@.len(),
            ComponentKind::Mouse => 0,
        }
    }

    /// A device with the given name, no id, no automatic configuration and
    /// no components.
    pub fn new(name: String) -> (r: Self)
        ensures
            r.name@ == name@,
            r.id.is_none(),
            !r.autoload_config,
            r.controllers@.len() == 0,
            r.motions@.len() == 0,
            r.analogs@.len() == 0,
            r.buttons@.len() == 0,
            r.touch_pads@.len() == 0,
    {
        DeviceInfo {
            name,
            id: None,
            autoload_config: false,
            controllers: Vec::new(),
            motions: Vec::new(),
            analogs: Vec::new(),
            buttons: Vec::new(),
            touch_pads: Vec::new(),
        }
    }

    /// `self` with the id set.
    pub fn with_id(self, id: String) -> (r: Self)
        ensures
            r.id matches Some(i) && i@ == id@,
            r.name == self.name,
            r.autoload_config == self.autoload_config,
            r.controllers@ == self.controllers@,
            r.motions@ == self.motions@,
            r.analogs@ == self.analogs@,
            r.buttons@ == self.buttons@,
            r.touch_pads@ == self.touch_pads@,
    {
        let mut s = self;
        s.id = Some(id);
        s
    }

    /// `self` with the automatic-configuration flag set to the argument.
    pub fn autoload_config(self, autoload_config: bool) -> (r: Self)
        ensures
            r.autoload_config == autoload_config,
            r.name == self.name,
            r.id == self.id,
            r.controllers@ == self.controllers@,
            r.motions@ == self.motions@,
            r.analogs@ == self.analogs@,
            r.buttons@ == self.buttons@,
            r.touch_pads@ == self.touch_pads@,
    {
        let mut s = self;
        s.autoload_config = autoload_config;
        s
    }

    /// Appends a controller and returns its index.
    pub fn add_controller(&mut self, info: ControllerInfo) -> (i: usize)
        requires
            old(self).controllers@.len() < usize::MAX,
        ensures
            final(self).controllers@ == old(self).controllers@.push(info),
            i == old(self).controllers@.len(),
            final(self).name == old(self).name,
            final(self).id == old(self).id,
            final(self).autoload_config == old(self).autoload_config,
            final(self).motions@ == old(self).motions@,
            final(self).analogs@ == old(self).analogs@,
            final(self).buttons@ == old(self).buttons@,
            final(self).touch_pads@ == old(self).touch_pads@,
    {
        self.controllers.push(info);
        self.controllers.len() - 1
    }

    /// Appends a motion sensor and returns its index.
    pub fn add_motion(&mut self, info: MotionInfo) -> (i: usize)
        requires
            old(self).motions@.len() < usize::MAX,
        ensures
            final(self).motions@ == old(self).motions@.push(info),
            i == old(self).motions@.len(),
            final(self).name == old(self).name,
            final(self).id == old(self).id,
            final(self).autoload_config == old(self).autoload_config,
            final(self).controllers@ == old(self).controllers@,
            final(self).analogs@ == old(self).analogs@,
            final(self).buttons@ == old(self).buttons@,
            final(self).touch_pads@ == old(self).touch_pads@,
    {
        self.motions.push(info);
        self.motions.len() - 1
    }

    /// Appends a bank of analogs and returns its index.
    pub fn add_analog(&mut self, info: AnalogsInfo) -> (i: usize)
        requires
            old(self).analogs@.len() < usize::MAX,
        ensures
            final(self).analogs@ == old(self).analogs@.push(info),
            i == old(self).analogs@.len(),
            final(self).name == old(self).name,
            final(self).id == old(self).id,
            final(self).autoload_config == old(self).autoload_config,
            final(self).controllers@ == old(self).controllers@,
            final(self).motions@ == old(self).motions@,
            final(self).buttons@ == old(self).buttons@,
            final(self).touch_pads@ == old(self).touch_pads@,
    {
        self.analogs.push(info);
        self.analogs.len() - 1
    }

    /// Appends a bank of buttons and returns its index.
    pub fn add_button(&mut self, info: ButtonsInfo) -> (i: usize)
        requires
            old(self).buttons@.len() < usize::MAX,
        ensures
            final(self).buttons@ == old(self).buttons@.push(info),
            i == old(self).buttons@.len(),
            final(self).name == old(self).name,
            final(self).id == old(self).id,
            final(self).autoload_config == old(self).autoload_config,
            final(self).controllers@ == old(self).controllers@,
            final(self).motions@ == old(self).motions@,
            final(self).analogs@ == old(self).analogs@,
            final(self).touch_pads@ == old(self).touch_pads@,
    {
        self.buttons.push(info);
        self.buttons.len() - 1
    }

    /// Appends a touch pad and returns its index.
    pub fn add_touch_pad(&mut self, info: TouchPadInfo) -> (i: usize)
        requires
            old(self).touch_pads@.len() < usize::MAX,
        ensures
            final(self).touch_pads@ == old(self).touch_pads@.push(info),
            i == old(self).touch_pads@.len(),
            final(self).name == old(self).name,
            final(self).id == old(self).id,
            final(self).autoload_config == old(self).autoload_config,
            final(self).controllers@ == old(self).controllers@,
            final(self).motions@ == old(self).motions@,
            final(self).analogs@ == old(self).analogs@,
            final(self).buttons@ == old(self).buttons@,
    {
        self.touch_pads.push(info);
        self.touch_pads.len() - 1
    }

    /// How many components of `kind` the device has.
    pub fn count(&self, kind: ComponentKind) -> (n: usize)
        ensures
            n == self.component_count(kind),
    {
        match kind {
            ComponentKind::Controller => self.controllers.len(),
            ComponentKind::Motion => self.motions.len(),
            ComponentKind::Analogs => self.analogs.len(),
            ComponentKind::Buttons => self.buttons.len(),
            ComponentKind::TouchPad => self.touch_pads.len(),
            ComponentKind::Mouse => 0,
        }
    }
}

} // verus!
