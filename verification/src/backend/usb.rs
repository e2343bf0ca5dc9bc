//! Choosing the USB interface of a device.
use vstd::prelude::*;

verus! {

/// The interface is a plain HID interface: class 3 (HID), no subclass and
/// no protocol.
pub fn hid_filter(class_code: u8, sub_class_code: u8, protocol_code: u8) -> (r: bool)
    ensures
        r == (class_code == 3 && sub_class_code == 0 && protocol_code == 0),
{
    class_code == 3 && sub_class_code == 0 && protocol_code == 0
}

} // verus!
