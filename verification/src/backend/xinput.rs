//! XInput pads: mapping an XInput state onto the gamepad state.
use vstd::prelude::*;
use crate::bits::bit64;
use crate::component::controller::{Analog, Button, Controller, ControllerInfo, mask_of, buttons_mask, pack_buttons};
use crate::backend::steam_controller::{pad_to_stick, stick_from_pad};
use crate::xusb;
use crate::text::{digit_chars, prefixed_number};
use crate::xusb::XusbReport;

verus! {

/// What the logic reads of an XInput state: the raw gamepad report and
/// whether each trigger counts as pressed.
#[derive(Copy, Clone, Debug, Default, PartialEq, Eq, Structural)]
pub struct XInputState {
    pub gamepad: XusbReport,
    pub left_trigger_pressed: bool,
    pub right_trigger_pressed: bool,
}

/// The gamepad button is pressed in the XInput state: face buttons by
/// position (north Y, south A, east B, west X), the d-pad, Start, Back as
/// Select, the shoulders as L1/R1, the triggers as L2/R2 and the thumbstick
/// clicks; L3, R3, L4, R4, Home and Capture are never pressed.
pub open spec fn x_pressed(st: XInputState, b: Button) -> bool {
    let w = st.gamepad.buttons;
    match b {
        Button::Y => xusb::has(w, xusb::Y),
        Button::A => xusb::has(w, xusb::A),
        Button::B => xusb::has(w, xusb::B),
        Button::X => xusb::has(w, xusb::X),
        Button::Up => xusb::has(w, xusb::DPAD_UP),
        Button::Down => xusb::has(w, xusb::DPAD_DOWN),
        Button::Left => xusb::has(w, xusb::DPAD_LEFT),
        Button::Right => xusb::has(w, xusb::DPAD_RIGHT),
        Button::Start => xusb::has(w, xusb::START),
        Button::Select => xusb::has(w, xusb::BACK),
        Button::L1 => xusb::has(w, xusb::LEFT_SHOULDER),
        Button::R1 => xusb::has(w, xusb::RIGHT_SHOULDER),
        Button::L2 => st.left_trigger_pressed,
        Button::R2 => st.right_trigger_pressed,
        Button::LStick => xusb::has(w, xusb::LEFT_THUMB),
        Button::RStick => xusb::has(w, xusb::RIGHT_THUMB),
        _ => false,
    }
}

/// The gamepad buttons of an XInput state, bit by bit (bit `i` of the gamepad field is the button of index `i`: A 0, B 1, X 2,
/// Y 3, Up 4, Down 5, Left 6, Right 7, Start 8, Select 9, L1 10, R1 11,
/// L2 12, R2 13, L3 14, R3 15, L4 16, R4 17, LStick 18, RStick 19, Home
/// 20, Capture 21): A,
/// B, X, Y from the south, east, west and north face buttons, the d-pad,
/// Start, Select from Back, L1/R1 from the shoulders, L2/R2 from the
/// triggers and the stick clicks from the thumb buttons; L3, R3, L4, R4,
/// Home and Capture are never pressed.
pub proof fn law_xinput_button_layout(st: XInputState, out: u64)
    requires
        forall|j: u64| j < 64 ==> #[trigger] bit64(out, j) == (j < 22 && x_pressed(st, Button::from_index(j))),
    ensures
        bit64(out, 0) == (xusb::has(st.gamepad.buttons, xusb::A)),
        bit64(out, 1) == (xusb::has(st.gamepad.buttons, xusb::B)),
        bit64(out, 2) == (xusb::has(st.gamepad.buttons, xusb::X)),
        bit64(out, 3) == (xusb::has(st.gamepad.buttons, xusb::Y)),
        bit64(out, 4) == (xusb::has(st.gamepad.buttons, xusb::DPAD_UP)),
        bit64(out, 5) == (xusb::has(st.gamepad.buttons, xusb::DPAD_DOWN)),
        bit64(out, 6) == (xusb::has(st.gamepad.buttons, xusb::DPAD_LEFT)),
        bit64(out, 7) == (xusb::has(st.gamepad.buttons, xusb::DPAD_RIGHT)),
        bit64(out, 8) == (xusb::has(st.gamepad.buttons, xusb::START)),
        bit64(out, 9) == (xusb::has(st.gamepad.buttons, xusb::BACK)),
        bit64(out, 10) == (xusb::has(st.gamepad.buttons, xusb::LEFT_SHOULDER)),
        bit64(out, 11) == (xusb::has(st.gamepad.buttons, xusb::RIGHT_SHOULDER)),
        bit64(out, 12) == (st.left_trigger_pressed),
        bit64(out, 13) == (st.right_trigger_pressed),
        !bit64(out, 14),
        !bit64(out, 15),
        !bit64(out, 16),
        !bit64(out, 17),
        bit64(out, 18) == (xusb::has(st.gamepad.buttons, xusb::LEFT_THUMB)),
        bit64(out, 19) == (xusb::has(st.gamepad.buttons, xusb::RIGHT_THUMB)),
        !bit64(out, 20),
        !bit64(out, 21),
        forall|j: u64| 22 <= j < 64 ==> !#[trigger] bit64(out, j),
{
    assert(bit64(out, 0) == x_pressed(st, Button::A));
    assert(bit64(out, 1) == x_pressed(st, Button::B));
    assert(bit64(out, 2) == x_pressed(st, Button::X));
    assert(bit64(out, 3) == x_pressed(st, Button::Y));
    assert(bit64(out, 4) == x_pressed(st, Button::Up));
    assert(bit64(out, 5) == x_pressed(st, Button::Down));
    assert(bit64(out, 6) == x_pressed(st, Button::Left));
    assert(bit64(out, 7) == x_pressed(st, Button::Right));
    assert(bit64(out, 8) == x_pressed(st, Button::Start));
    assert(bit64(out, 9) == x_pressed(st, Button::Select));
    assert(bit64(out, 10) == x_pressed(st, Button::L1));
    assert(bit64(out, 11) == x_pressed(st, Button::R1));
    assert(bit64(out, 12) == x_pressed(st, Button::L2));
    assert(bit64(out, 13) == x_pressed(st, Button::R2));
    assert(bit64(out, 14) == x_pressed(st, Button::L3));
    assert(bit64(out, 15) == x_pressed(st, Button::R3));
    assert(bit64(out, 16) == x_pressed(st, Button::L4));
    assert(bit64(out, 17) == x_pressed(st, Button::R4));
    assert(bit64(out, 18) == x_pressed(st, Button::LStick));
    assert(bit64(out, 19) == x_pressed(st, Button::RStick));
    assert(bit64(out, 20) == x_pressed(st, Button::Home));
    assert(bit64(out, 21) == x_pressed(st, Button::Capture));
}

/// Whether the gamepad button is pressed in the XInput state.
pub fn x_is_pressed(st: &XInputState, b: Button) -> (r: bool)
    ensures
        r == x_pressed(*st, b),
{
    let w = st.gamepad.buttons;
    match b {
        Button::Y => w & xusb::Y != 0,
        Button::A => w & xusb::A != 0,
        Button::B => w & xusb::B != 0,
        Button::X => w & xusb::X != 0,
        Button::Up => w & xusb::DPAD_UP != 0,
        Button::Down => w & xusb::DPAD_DOWN != 0,
        Button::Left => w & xusb::DPAD_LEFT != 0,
        Button::Right => w & xusb::DPAD_RIGHT != 0,
        Button::Start => w & xusb::START != 0,
        Button::Select => w & xusb::BACK != 0,
        Button::L1 => w & xusb::LEFT_SHOULDER != 0,
        Button::R1 => w & xusb::RIGHT_SHOULDER != 0,
        Button::L2 => st.left_trigger_pressed,
        Button::R2 => st.right_trigger_pressed,
        Button::LStick => w & xusb::LEFT_THUMB != 0,
        Button::RStick => w & xusb::RIGHT_THUMB != 0,
        _ => false,
    }
}

/// Writes an XInput state into the gamepad state: the buttons as
/// `x_pressed`, the L2/R2 analogs from the triggers, the sticks as
/// `v / 256 + 128`. L1 and R1 analogs are kept.
pub fn write(ctrl: &mut Controller, st: &XInputState)
    ensures
        forall|j: u64| j < 64 ==> #[trigger] bit64(final(ctrl).buttons, j) == (j < 22 && x_pressed(*st, Button::from_index(j))),
        final(ctrl).l2_analog == st.gamepad.left_trigger,
        final(ctrl).r2_analog == st.gamepad.right_trigger,
        final(ctrl).left_stick_x == pad_to_stick(st.gamepad.thumb_lx),
        final(ctrl).left_stick_y == pad_to_stick(st.gamepad.thumb_ly),
        final(ctrl).right_stick_x == pad_to_stick(st.gamepad.thumb_rx),
        final(ctrl).right_stick_y == pad_to_stick(st.gamepad.thumb_ry),
        final(ctrl).l1_analog == old(ctrl).l1_analog,
        final(ctrl).r1_analog == old(ctrl).r1_analog,
{
    let all = Button::buttons();
    let mut flags = [false; 22];
    let mut i: usize = 0;
    while i < 22
        invariant
            i <= 22,
            forall|k: int| 0 <= k < 22 ==> (#[trigger] all[k]).index() == k,
            forall|k: int| 0 <= k < i ==> #[trigger] flags[k] == x_pressed(*st, Button::from_index(k as u64)),
        decreases 22 - i,
    {
        let b = all[i];
        proof {
            crate::component::controller::lemma_button_index_roundtrip(b);
        }
        flags[i] = x_is_pressed(st, b);
        i = i + 1;
    }
    ctrl.buttons = pack_buttons(&flags);
    ctrl.l2_analog = st.gamepad.left_trigger;
    ctrl.r2_analog = st.gamepad.right_trigger;
    ctrl.left_stick_x = stick_from_pad(st.gamepad.thumb_lx);
    ctrl.left_stick_y = stick_from_pad(st.gamepad.thumb_ly);
    ctrl.right_stick_x = stick_from_pad(st.gamepad.thumb_rx);
    ctrl.right_stick_y = stick_from_pad(st.gamepad.thumb_ry);
}

/// The buttons of an XInput pad.
pub open spec fn info_buttons() -> Seq<Button> {
    seq![
        Button::A, Button::B, Button::X, Button::Y, Button::Up, Button::Down, Button::Left, Button::Right,
        Button::Start, Button::Select, Button::L1, Button::R1, Button::L2, Button::R2, Button::LStick, Button::RStick,
    ]
}

/// Description of an XInput pad: its buttons, both sticks and the L2/R2
/// triggers.
pub fn xinput_controller_info() -> (i: ControllerInfo)
    ensures
        i == (ControllerInfo { buttons: 0, analogs: 0 }.added(Analog::LStick).added(Analog::RStick).added(Analog::L2).added(Analog::R2).with_buttons(mask_of(info_buttons()))),
{
    let info = ControllerInfo::default().with_lstick().with_rstick().with_l2_analog().with_r2_analog();
    let list = [
        Button::A, Button::B, Button::X, Button::Y, Button::Up, Button::Down, Button::Left, Button::Right,
        Button::Start, Button::Select, Button::L1, Button::R1, Button::L2, Button::R2, Button::LStick, Button::RStick,
    ];
    assert(list@ =~= info_buttons());
    ControllerInfo { buttons: buttons_mask(&list), analogs: info.analogs }
}

/// The first slot at or after `from` that has no pad, if any; a poll of
/// empty slots tries only that one, since polling a slot without a pad is
/// slow.
pub fn next_empty_slot(occupied: &[bool; 4], from: usize) -> (r: Option<usize>)
    ensures
        match r {
            Some(i) => from <= i < 4 && !occupied[i as int] && forall|k: int| from <= k < i ==> occupied[k],
            None => forall|k: int| from <= k < 4 ==> occupied[k],
        },
{
    let mut i: usize = from;
    while i < 4
        invariant
            from <= i,
            forall|k: int| from <= k < i ==> occupied[k],
        decreases 4 - i,
    {
        if !occupied[i] {
            return Some(i);
        }
        i = i + 1;
    }
    None
}

/// The display name of the pad in slot `index`: slots are numbered from 1.
pub fn controller_name(index: usize) -> (s: String)
    requires
        index < usize::MAX,
    ensures
        s@ == "XInput Controller "@ + digit_chars((index + 1) as nat, 10),
{
    prefixed_number("XInput Controller ", (index + 1) as u128)
}

} // verus!
