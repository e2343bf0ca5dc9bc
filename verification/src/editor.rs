//! Editing the controller description of a virtual device: each click on a
//! button or analog toggles whether the controller has it.
use vstd::prelude::*;
use crate::component::controller::{Analog, Button, ControllerInfo};
use crate::device::DeviceInfo;

verus! {

/// Editor of the controller at `index` in a device description.
pub struct Editor {
    pub index: usize,
}

impl Editor {
    /// An editor of the controller at `index`.
    pub fn new(index: usize) -> (e: Self)
        ensures
            e.index == index,
    {
        Editor { index }
    }

    /// Toggles whether the edited controller has `button`, and says whether
    /// the description changed: nothing changes when the device has no
    /// controller at the editor's index.
    pub fn toggle_button(&self, info: &mut DeviceInfo, button: Button) -> (changed: bool)
        ensures
            changed == (self.index < old(info).controllers@.len()),
            final(info).controllers@.len() == old(info).controllers@.len(),
            forall|i: int| 0 <= i < old(info).controllers@.len() && i != self.index ==> #[trigger] final(info).controllers@[i] == old(info).controllers@[i],
            changed ==> forall|c: Button| #[trigger] final(info).controllers@[self.index as int].spec_has_button(c) == (if c == button {
                !old(info).controllers@[self.index as int].spec_has_button(c)
            } else {
                old(info).controllers@[self.index as int].spec_has_button(c)
            }),
            changed ==> final(info).controllers@[self.index as int].analogs == old(info).controllers@[self.index as int].analogs,
            final(info).name == old(info).name,
            final(info).id == old(info).id,
            final(info).autoload_config == old(info).autoload_config,
            final(info).motions@ == old(info).motions@,
            final(info).analogs@ == old(info).analogs@,
            final(info).buttons@ == old(info).buttons@,
            final(info).touch_pads@ == old(info).touch_pads@,
    {
        if self.index >= info.controllers.len() {
            return false;
        }
        let current = &info.controllers[self.index];
        let mut c = ControllerInfo { buttons: current.buttons, analogs: current.analogs };
        let had = c.has_button(button);
        c.set_button(button, !had);
        info.controllers.set(self.index, c);
        proof {
            let before = old(info).controllers@[self.index as int];
            assert forall|b: Button| #[trigger] c.spec_has_button(b) == (if b == button {
                !before.spec_has_button(b)
            } else {
                before.spec_has_button(b)
            }) by {
                crate::component::controller::law_set_button_then_has_button(before, c, button, !had, b);
            }
        }
        true
    }

    /// Toggles whether the edited controller has `analog`, and says whether
    /// the description changed: nothing changes when the device has no
    /// controller at the editor's index.
    pub fn toggle_analog(&self, info: &mut DeviceInfo, analog: Analog) -> (changed: bool)
        ensures
            changed == (self.index < old(info).controllers@.len()),
            final(info).controllers@.len() == old(info).controllers@.len(),
            forall|i: int| 0 <= i < old(info).controllers@.len() && i != self.index ==> #[trigger] final(info).controllers@[i] == old(info).controllers@[i],
            changed ==> forall|a: Analog| #[trigger] final(info).controllers@[self.index as int].spec_has_analog(a) == (if a == analog {
                !old(info).controllers@[self.index as int].spec_has_analog(a)
            } else {
                old(info).controllers@[self.index as int].spec_has_analog(a)
            }),
            changed ==> final(info).controllers@[self.index as int].buttons == old(info).controllers@[self.index as int].buttons,
            final(info).name == old(info).name,
            final(info).id == old(info).id,
            final(info).autoload_config == old(info).autoload_config,
            final(info).motions@ == old(info).motions@,
            final(info).analogs@ == old(info).analogs@,
            final(info).buttons@ == old(info).buttons@,
            final(info).touch_pads@ == old(info).touch_pads@,
    {
        if self.index >= info.controllers.len() {
            return false;
        }
        let current = &info.controllers[self.index];
        let mut c = ControllerInfo { buttons: current.buttons, analogs: current.analogs };
        let had = c.has_analog(analog);
        c.set_analog(analog, !had);
        info.controllers.set(self.index, c);
        proof {
            let before = old(info).controllers@[self.index as int];
            assert forall|a: Analog| #[trigger] c.spec_has_analog(a) == (if a == analog {
                !before.spec_has_analog(a)
            } else {
                before.spec_has_analog(a)
            }) by {
                crate::component::controller::law_set_analog_then_has_analog(before, c, analog, !had, a);
            }
        }
        true
    }
}

} // verus!
