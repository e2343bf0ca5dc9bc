//! The Xbox 360 (XUSB / XInput) gamepad report: its button bits, triggers
//! and thumbsticks, shared by the XInput reader and the emulated Xbox 360
//! pads.
use vstd::prelude::*;

verus! {

pub const DPAD_UP: u16 = 0x0001;
pub const DPAD_DOWN: u16 = 0x0002;
pub const DPAD_LEFT: u16 = 0x0004;
pub const DPAD_RIGHT: u16 = 0x0008;
pub const START: u16 = 0x0010;
pub const BACK: u16 = 0x0020;
pub const LEFT_THUMB: u16 = 0x0040;
pub const RIGHT_THUMB: u16 = 0x0080;
pub const LEFT_SHOULDER: u16 = 0x0100;
pub const RIGHT_SHOULDER: u16 = 0x0200;
pub const GUIDE: u16 = 0x0400;
pub const A: u16 = 0x1000;
pub const B: u16 = 0x2000;
pub const X: u16 = 0x4000;
pub const Y: u16 = 0x8000;

/// An Xbox 360 gamepad report.
#[derive(Copy, Clone, Debug, Default, PartialEq, Eq, Structural)]
pub struct XusbReport {
    pub buttons: u16,
    pub left_trigger: u8,
    pub right_trigger: u8,
    pub thumb_lx: i16,
    pub thumb_ly: i16,
    pub thumb_rx: i16,
    pub thumb_ry: i16,
}

/// The report has every bit of `flag` set.
pub open spec fn has(buttons: u16, flag: u16) -> bool {
    buttons & flag != 0
}

} // verus!
