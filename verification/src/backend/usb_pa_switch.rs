//! PowerA wired Pro Controller, read through its decoded HID state.
use vstd::prelude::*;
use crate::bits::bit64;
use crate::text::{digit_chars, prefixed_number};
use crate::component::controller::{Analog, Button, Controller, ControllerInfo, pack_buttons};

verus! {

/// A button of the controller's HID state.
#[derive(Copy, Clone, Debug, PartialEq, Eq, Structural)]
pub enum PaButton {
    Y,
    B,
    A,
    X,
    L1,
    R1,
    L2,
    R2,
    Select,
    Start,
    LStick,
    RStick,
    Home,
    Capture,
}

impl PaButton {
    /// The button's bit in `PaButtons::pressed`.
    pub open spec fn index(self) -> u16 {
        match self {
            PaButton::Y => 0,
            PaButton::B => 1,
            PaButton::A => 2,
            PaButton::X => 3,
            PaButton::L1 => 4,
            PaButton::R1 => 5,
            PaButton::L2 => 6,
            PaButton::R2 => 7,
            PaButton::Select => 8,
            PaButton::Start => 9,
            PaButton::LStick => 10,
            PaButton::RStick => 11,
            PaButton::Home => 12,
            PaButton::Capture => 13,
        }
    }

    /// The button's bit in `PaButtons::pressed`.
    pub fn bit(self) -> (b: u16)
        ensures
            b == self.index(),
    {
        match self {
            PaButton::Y => 0,
            PaButton::B => 1,
            PaButton::A => 2,
            PaButton::X => 3,
            PaButton::L1 => 4,
            PaButton::R1 => 5,
            PaButton::L2 => 6,
            PaButton::R2 => 7,
            PaButton::Select => 8,
            PaButton::Start => 9,
            PaButton::LStick => 10,
            PaButton::RStick => 11,
            PaButton::Home => 12,
            PaButton::Capture => 13,
        }
    }
}

/// The pressed buttons of the HID state, one bit per `PaButton`.
#[derive(Copy, Clone, Debug, Default, PartialEq, Eq, Structural)]
pub struct PaButtons {
    pub pressed: u16,
}

impl PaButtons {
    /// The button is pressed.
    pub open spec fn has(self, b: PaButton) -> bool {
        self.pressed & (1u16 << b.index()) != 0
    }

    /// Whether the button is pressed.
    pub fn is_pressed(&self, b: PaButton) -> (r: bool)
        ensures
            r == self.has(b),
    {
        self.pressed & (1u16 << b.bit()) != 0
    }
}

/// The d-pad of the HID state.
#[derive(Copy, Clone, Debug, Default, PartialEq, Eq, Structural)]
pub struct DPad {
    pub up: bool,
    pub down: bool,
    pub left: bool,
    pub right: bool,
}

/// A stick of the HID state.
#[derive(Copy, Clone, Debug, Default, PartialEq, Eq, Structural)]
pub struct Stick {
    pub x: u8,
    pub y: u8,
}

/// What the logic reads of the HID state.
#[derive(Copy, Clone, Debug, Default, PartialEq, Eq, Structural)]
pub struct PaState {
    pub buttons: PaButtons,
    pub dpad: DPad,
    pub left_stick: Stick,
    pub right_stick: Stick,
}

/// The gamepad button is pressed in the HID state: each HID button drives
/// its namesake, the d-pad the directions; L3, R3, L4, R4 are never pressed.
pub open spec fn pa_pressed(buttons: PaButtons, dpad: DPad, b: Button) -> bool {
    match b {
        Button::Y => buttons.has(PaButton::Y),
        Button::B => buttons.has(PaButton::B),
        Button::A => buttons.has(PaButton::A),
        Button::X => buttons.has(PaButton::X),
        Button::L1 => buttons.has(PaButton::L1),
        Button::R1 => buttons.has(PaButton::R1),
        Button::L2 => buttons.has(PaButton::L2),
        Button::R2 => buttons.has(PaButton::R2),
        Button::Select => buttons.has(PaButton::Select),
        Button::Start => buttons.has(PaButton::Start),
        Button::LStick => buttons.has(PaButton::LStick),
        Button::RStick => buttons.has(PaButton::RStick),
        Button::Home => buttons.has(PaButton::Home),
        Button::Capture => buttons.has(PaButton::Capture),
        Button::Up => dpad.up,
        Button::Down => dpad.down,
        Button::Left => dpad.left,
        Button::Right => dpad.right,
        _ => false,
    }
}

/// The gamepad buttons of the HID state, bit by bit (bit `i` of the gamepad field is the button of index `i`: A 0, B 1, X 2,
/// Y 3, Up 4, Down 5, Left 6, Right 7, Start 8, Select 9, L1 10, R1 11,
/// L2 12, R2 13, L3 14, R3 15, L4 16, R4 17, LStick 18, RStick 19, Home
/// 20, Capture 21): each
/// HID button presses the gamepad button of the same name and the d-pad
/// the directions; L3, R3, L4 and R4 are never pressed.
pub proof fn law_pa_button_layout(buttons: PaButtons, dpad: DPad, out: u64)
    requires
        forall|j: u64| j < 64 ==> #[trigger] bit64(out, j) == (j < 22 && pa_pressed(buttons, dpad, Button::from_index(j))),
    ensures
        bit64(out, 0) == (buttons.has(PaButton::A)),
        bit64(out, 1) == (buttons.has(PaButton::B)),
        bit64(out, 2) == (buttons.has(PaButton::X)),
        bit64(out, 3) == (buttons.has(PaButton::Y)),
        bit64(out, 4) == (dpad.up),
        bit64(out, 5) == (dpad.down),
        bit64(out, 6) == (dpad.left),
        bit64(out, 7) == (dpad.right),
        bit64(out, 8) == (buttons.has(PaButton::Start)),
        bit64(out, 9) == (buttons.has(PaButton::Select)),
        bit64(out, 10) == (buttons.has(PaButton::L1)),
        bit64(out, 11) == (buttons.has(PaButton::R1)),
        bit64(out, 12) == (buttons.has(PaButton::L2)),
        bit64(out, 13) == (buttons.has(PaButton::R2)),
        !bit64(out, 14),
        !bit64(out, 15),
        !bit64(out, 16),
        !bit64(out, 17),
        bit64(out, 18) == (buttons.has(PaButton::LStick)),
        bit64(out, 19) == (buttons.has(PaButton::RStick)),
        bit64(out, 20) == (buttons.has(PaButton::Home)),
        bit64(out, 21) == (buttons.has(PaButton::Capture)),
        forall|j: u64| 22 <= j < 64 ==> !#[trigger] bit64(out, j),
{
    assert(bit64(out, 0) == pa_pressed(buttons, dpad, Button::A));
    assert(bit64(out, 1) == pa_pressed(buttons, dpad, Button::B));
    assert(bit64(out, 2) == pa_pressed(buttons, dpad, Button::X));
    assert(bit64(out, 3) == pa_pressed(buttons, dpad, Button::Y));
    assert(bit64(out, 4) == pa_pressed(buttons, dpad, Button::Up));
    assert(bit64(out, 5) == pa_pressed(buttons, dpad, Button::Down));
    assert(bit64(out, 6) == pa_pressed(buttons, dpad, Button::Left));
    assert(bit64(out, 7) == pa_pressed(buttons, dpad, Button::Right));
    assert(bit64(out, 8) == pa_pressed(buttons, dpad, Button::Start));
    assert(bit64(out, 9) == pa_pressed(buttons, dpad, Button::Select));
    assert(bit64(out, 10) == pa_pressed(buttons, dpad, Button::L1));
    assert(bit64(out, 11) == pa_pressed(buttons, dpad, Button::R1));
    assert(bit64(out, 12) == pa_pressed(buttons, dpad, Button::L2));
    assert(bit64(out, 13) == pa_pressed(buttons, dpad, Button::R2));
    assert(bit64(out, 14) == pa_pressed(buttons, dpad, Button::L3));
    assert(bit64(out, 15) == pa_pressed(buttons, dpad, Button::R3));
    assert(bit64(out, 16) == pa_pressed(buttons, dpad, Button::L4));
    assert(bit64(out, 17) == pa_pressed(buttons, dpad, Button::R4));
    assert(bit64(out, 18) == pa_pressed(buttons, dpad, Button::LStick));
    assert(bit64(out, 19) == pa_pressed(buttons, dpad, Button::RStick));
    assert(bit64(out, 20) == pa_pressed(buttons, dpad, Button::Home));
    assert(bit64(out, 21) == pa_pressed(buttons, dpad, Button::Capture));
}

/// Whether the gamepad button is pressed in the HID state.
pub fn pa_is_pressed(buttons: &PaButtons, dpad: &DPad, b: Button) -> (r: bool)
    ensures
        r == pa_pressed(*buttons, *dpad, b),
{
    match b {
        Button::Y => buttons.is_pressed(PaButton::Y),
        Button::B => buttons.is_pressed(PaButton::B),
        Button::A => buttons.is_pressed(PaButton::A),
        Button::X => buttons.is_pressed(PaButton::X),
        Button::L1 => buttons.is_pressed(PaButton::L1),
        Button::R1 => buttons.is_pressed(PaButton::R1),
        Button::L2 => buttons.is_pressed(PaButton::L2),
        Button::R2 => buttons.is_pressed(PaButton::R2),
        Button::Select => buttons.is_pressed(PaButton::Select),
        Button::Start => buttons.is_pressed(PaButton::Start),
        Button::LStick => buttons.is_pressed(PaButton::LStick),
        Button::RStick => buttons.is_pressed(PaButton::RStick),
        Button::Home => buttons.is_pressed(PaButton::Home),
        Button::Capture => buttons.is_pressed(PaButton::Capture),
        Button::Up => dpad.up,
        Button::Down => dpad.down,
        Button::Left => dpad.left,
        Button::Right => dpad.right,
        _ => false,
    }
}

/// The gamepad button field of the HID buttons and d-pad.
pub fn convert_buttons(buttons: PaButtons, dpad: DPad) -> (out: u64)
    ensures
        forall|j: u64| j < 64 ==> #[trigger] bit64(out, j) == (j < 22 && pa_pressed(buttons, dpad, Button::from_index(j))),
{
    let all = Button::buttons();
    let mut flags = [false; 22];
    let mut i: usize = 0;
    while i < 22
        invariant
            i <= 22,
            forall|k: int| 0 <= k < 22 ==> (#[trigger] all[k]).index() == k,
            forall|k: int| 0 <= k < i ==> #[trigger] flags[k] == pa_pressed(buttons, dpad, Button::from_index(k as u64)),
        decreases 22 - i,
    {
        let b = all[i];
        proof {
            crate::component::controller::lemma_button_index_roundtrip(b);
        }
        flags[i] = pa_is_pressed(&buttons, &dpad, b);
        i = i + 1;
    }
    pack_buttons(&flags)
}

/// Applies the HID state to the gamepad: the buttons as
/// `convert_buttons`, the digital L2/R2 as full (255) or released (0)
/// triggers, the sticks with the vertical axes flipped (`255 - y`). L1 and
/// R1 analogs are kept.
pub fn update(ctrl: &mut Controller, st: &PaState)
    ensures
        forall|j: u64| j < 64 ==> #[trigger] bit64(final(ctrl).buttons, j) == (j < 22 && pa_pressed(st.buttons, st.dpad, Button::from_index(j))),
        final(ctrl).l2_analog == (if st.buttons.has(PaButton::L2) { 255u8 } else { 0u8 }),
        final(ctrl).r2_analog == (if st.buttons.has(PaButton::R2) { 255u8 } else { 0u8 }),
        final(ctrl).left_stick_x == st.left_stick.x,
        final(ctrl).left_stick_y == 255 - st.left_stick.y,
        final(ctrl).right_stick_x == st.right_stick.x,
        final(ctrl).right_stick_y == 255 - st.right_stick.y,
        final(ctrl).l1_analog == old(ctrl).l1_analog,
        final(ctrl).r1_analog == old(ctrl).r1_analog,
{
    ctrl.buttons = convert_buttons(st.buttons, st.dpad);
    ctrl.l2_analog = if st.buttons.is_pressed(PaButton::L2) { 255 } else { 0 };
    ctrl.r2_analog = if st.buttons.is_pressed(PaButton::R2) { 255 } else { 0 };
    ctrl.left_stick_x = st.left_stick.x;
    ctrl.left_stick_y = 255 - st.left_stick.y;
    ctrl.right_stick_x = st.right_stick.x;
    ctrl.right_stick_y = 255 - st.right_stick.y;
}

/// Description of the controller. Its button field is built by or-ing the
/// buttons' bit positions (not their masks), which gives 31: A, B, X, Y and
/// Up; both sticks are present.
pub fn controller_info() -> (i: ControllerInfo)
    ensures
        i == (ControllerInfo { buttons: 31, analogs: 0 }.added(Analog::LStick).added(Analog::RStick)),
{
    let buttons: u64 = 0u64 | Button::A | Button::B | Button::X | Button::Y | Button::Up | Button::Down | Button::Left | Button::Right
        | Button::Start | Button::Select | Button::L1 | Button::R1 | Button::L2 | Button::R2 | Button::LStick | Button::RStick
        | Button::Home | Button::Capture;
    assert(buttons == 31) by (bit_vector)
        requires
            buttons == ((((((((((((((((((0u64 | 0u64) | 1u64) | 2u64) | 3u64) | 4u64) | 5u64) | 6u64) | 7u64) | 8u64) | 9u64) | 10u64) | 11u64) | 12u64) | 13u64) | 18u64) | 19u64) | 20u64) | 21u64),
    ;
    ControllerInfo { buttons, analogs: 0 }.with_lstick().with_rstick()
}

/// The display name of the controller with driver id `id`.
pub fn device_name(id: u64) -> (s: String)
    ensures
        s@ == "PowerA Wired Pro Controller "@ + digit_chars(id as nat, 10),
{
    prefixed_number("PowerA Wired Pro Controller ", id as u128)
}

} // verus!
