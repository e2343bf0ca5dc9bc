//! Emulated Xbox 360 and DualShock 4 pads: the reports sent for a gamepad
//! state. The Xbox 360 report is also what the XInput frontend sends.
use vstd::prelude::*;
use crate::bits::{bit16, bit64, pack16};
use crate::component::controller::{Button, Controller};
use crate::xusb;
use crate::xusb::XusbReport;
use crate::backend::steam_controller::pad_to_stick;
use crate::backend::xinput::{x_pressed, XInputState};

verus! {

/// The gamepad button that drives bit `k` of an Xbox 360 report: the d-pad
/// (bits 0 to 3), Start, Select as Back, the stick clicks, L1/R1 as the
/// shoulders, Home as Guide, and the face buttons (bits 12 to 15).
pub open spec fn xbox_source(k: u16) -> Option<Button> {
    if k == 0 {
        Some(Button::Up)
    } else if k == 1 {
        Some(Button::Down)
    } else if k == 2 {
        Some(Button::Left)
    } else if k == 3 {
        Some(Button::Right)
    } else if k == 4 {
        Some(Button::Start)
    } else if k == 5 {
        Some(Button::Select)
    } else if k == 6 {
        Some(Button::LStick)
    } else if k == 7 {
        Some(Button::RStick)
    } else if k == 8 {
        Some(Button::L1)
    } else if k == 9 {
        Some(Button::R1)
    } else if k == 10 {
        Some(Button::Home)
    } else if k == 12 {
        Some(Button::A)
    } else if k == 13 {
        Some(Button::B)
    } else if k == 14 {
        Some(Button::X)
    } else if k == 15 {
        Some(Button::Y)
    } else {
        None
    }
}

/// The gamepad buttons behind the bits of an Xbox 360 report, by bit.
pub fn xbox_sources() -> (t: [Option<Button>; 16])
    ensures
        forall|k: u16| k < 16 ==> #[trigger] t@[k as int] == xbox_source(k),
{
    [
        Some(Button::Up),
        Some(Button::Down),
        Some(Button::Left),
        Some(Button::Right),
        Some(Button::Start),
        Some(Button::Select),
        Some(Button::LStick),
        Some(Button::RStick),
        Some(Button::L1),
        Some(Button::R1),
        Some(Button::Home),
        None,
        Some(Button::A),
        Some(Button::B),
        Some(Button::X),
        Some(Button::Y),
    ]
}

/// The source button exists and is pressed in `buttons`.
pub open spec fn source_pressed(source: Option<Button>, buttons: u64) -> bool {
    match source {
        Some(b) => b.pressed_in(buttons),
        None => false,
    }
}

/// Packs the pressed state of the source buttons of the sixteen bits.
pub fn pack_sources(sources: &[Option<Button>; 16], buttons: u64) -> (m: u16)
    ensures
        forall|k: u16| k < 16 ==> #[trigger] bit16(m, k) == source_pressed(sources@[k as int], buttons),
{
    let mut flags = [false; 16];
    let mut i: usize = 0;
    while i < 16
        invariant
            i <= 16,
            forall|k: int| 0 <= k < i ==> #[trigger] flags@[k] == source_pressed(sources@[k], buttons),
        decreases 16 - i,
    {
        let f = match sources[i] {
            Some(b) => b.is_pressed(buttons),
            None => false,
        };
        flags[i] = f;
        i = i + 1;
    }
    pack16(&flags)
}

/// A trigger's value: full when its button is pressed, else its analog.
pub open spec fn trigger_value(pressed: bool, analog: u8) -> u8 {
    if pressed {
        255
    } else {
        analog
    }
}

/// An Xbox 360 thumbstick axis from a gamepad stick axis: centred on 128
/// and scaled by 256.
pub open spec fn thumb_value(v: u8) -> int {
    (v - 128) * 256
}

/// The Xbox 360 thumbstick axis of a gamepad stick axis.
pub fn thumb(v: u8) -> (t: i16)
    ensures
        t == thumb_value(v),
{
    let centred: i32 = v as i32 - 128;
    let scaled: i32 = centred * 256;
    scaled as i16
}

/// The Xbox 360 report of a gamepad state: each report button pressed
/// exactly when its source is, the triggers full while L2/R2 are pressed
/// and their analogs otherwise, the sticks centred and scaled.
pub fn xbox_report(data: &Controller) -> (r: XusbReport)
    ensures
        forall|k: u16| k < 16 ==> #[trigger] bit16(r.buttons, k) == source_pressed(xbox_source(k), data.buttons),
        r.left_trigger == trigger_value(Button::L2.pressed_in(data.buttons), data.l2_analog),
        r.right_trigger == trigger_value(Button::R2.pressed_in(data.buttons), data.r2_analog),
        r.thumb_lx == thumb_value(data.left_stick_x),
        r.thumb_ly == thumb_value(data.left_stick_y),
        r.thumb_rx == thumb_value(data.right_stick_x),
        r.thumb_ry == thumb_value(data.right_stick_y),
{
    let sources = xbox_sources();
    let buttons = pack_sources(&sources, data.buttons);
    XusbReport {
        buttons,
        left_trigger: if Button::L2.is_pressed(data.buttons) { 255 } else { data.l2_analog },
        right_trigger: if Button::R2.is_pressed(data.buttons) { 255 } else { data.r2_analog },
        thumb_lx: thumb(data.left_stick_x),
        thumb_ly: thumb(data.left_stick_y),
        thumb_rx: thumb(data.right_stick_x),
        thumb_ry: thumb(data.right_stick_y),
    }
}

/// The gamepad button behind bit `k` of a DualShock 4 report's buttons:
/// bits 0 to 3 hold the d-pad direction, the others the face buttons
/// (Square, Cross, Circle, Triangle), the shoulders, the triggers, Share,
/// Options and the stick clicks.
pub open spec fn ds4_source(k: u16) -> Option<Button> {
    if k == 4 {
        Some(Button::X)
    } else if k == 5 {
        Some(Button::A)
    } else if k == 6 {
        Some(Button::B)
    } else if k == 7 {
        Some(Button::Y)
    } else if k == 8 {
        Some(Button::L1)
    } else if k == 9 {
        Some(Button::R1)
    } else if k == 10 {
        Some(Button::L2)
    } else if k == 11 {
        Some(Button::R2)
    } else if k == 12 {
        Some(Button::Select)
    } else if k == 13 {
        Some(Button::Start)
    } else if k == 14 {
        Some(Button::LStick)
    } else if k == 15 {
        Some(Button::RStick)
    } else {
        None
    }
}

/// The gamepad buttons behind the bits of a DualShock 4 report, by bit.
pub fn ds4_sources() -> (t: [Option<Button>; 16])
    ensures
        forall|k: u16| k < 16 ==> #[trigger] t@[k as int] == ds4_source(k),
{
    [
        None,
        None,
        None,
        None,
        Some(Button::X),
        Some(Button::A),
        Some(Button::B),
        Some(Button::Y),
        Some(Button::L1),
        Some(Button::R1),
        Some(Button::L2),
        Some(Button::R2),
        Some(Button::Select),
        Some(Button::Start),
        Some(Button::LStick),
        Some(Button::RStick),
    ]
}

/// The DualShock 4 d-pad direction of the four d-pad buttons: 0 (north)
/// to 7 (north-west) clockwise for a single direction or two adjacent
/// ones, 8 (released) for anything else.
pub open spec fn dpad_value(up: bool, right: bool, down: bool, left: bool) -> u16 {
    match (up, right, down, left) {
        (true, false, false, false) => 0,
        (true, true, false, false) => 1,
        (false, true, false, false) => 2,
        (false, true, true, false) => 3,
        (false, false, true, false) => 4,
        (false, false, true, true) => 5,
        (false, false, false, true) => 6,
        (true, false, false, true) => 7,
        _ => 8,
    }
}

/// The DualShock 4 d-pad direction of the four d-pad buttons.
pub fn ds4_dpad(up: bool, right: bool, down: bool, left: bool) -> (d: u16)
    ensures
        d == dpad_value(up, right, down, left),
        d <= 8,
{
    match (up, right, down, left) {
        (true, false, false, false) => 0,
        (true, true, false, false) => 1,
        (false, true, false, false) => 2,
        (false, true, true, false) => 3,
        (false, false, true, false) => 4,
        (false, false, true, true) => 5,
        (false, false, false, true) => 6,
        (true, false, false, true) => 7,
        _ => 8,
    }
}

/// A DualShock 4 report.
#[derive(Copy, Clone, Debug, Default, PartialEq, Eq, Structural)]
pub struct Ds4Report {
    pub buttons: u16,
    pub special: u8,
    pub trigger_l: u8,
    pub trigger_r: u8,
    pub thumb_lx: u8,
    pub thumb_ly: u8,
    pub thumb_rx: u8,
    pub thumb_ry: u8,
}

/// The DualShock 4 report of a gamepad state: the d-pad direction in the
/// low four bits, each other report button pressed exactly when its
/// source is, the PS button (bit 0 of `special`) for Home, the triggers
/// as for the Xbox 360 and the sticks as they are.
pub fn ds4_report(data: &Controller) -> (r: Ds4Report)
    ensures
        r.buttons & 0xF == dpad_value(
            Button::Up.pressed_in(data.buttons),
            Button::Right.pressed_in(data.buttons),
            Button::Down.pressed_in(data.buttons),
            Button::Left.pressed_in(data.buttons),
        ),
        forall|k: u16| 4 <= k < 16 ==> #[trigger] bit16(r.buttons, k) == source_pressed(ds4_source(k), data.buttons),
        r.special == (if Button::Home.pressed_in(data.buttons) { 1u8 } else { 0u8 }),
        r.trigger_l == trigger_value(Button::L2.pressed_in(data.buttons), data.l2_analog),
        r.trigger_r == trigger_value(Button::R2.pressed_in(data.buttons), data.r2_analog),
        r.thumb_lx == data.left_stick_x,
        r.thumb_ly == data.left_stick_y,
        r.thumb_rx == data.right_stick_x,
        r.thumb_ry == data.right_stick_y,
{
    let sources = ds4_sources();
    let pressed = pack_sources(&sources, data.buttons);
    let dpad = ds4_dpad(
        Button::Up.is_pressed(data.buttons),
        Button::Right.is_pressed(data.buttons),
        Button::Down.is_pressed(data.buttons),
        Button::Left.is_pressed(data.buttons),
    );
    let buttons = pressed | dpad;
    proof {
        assert forall|k: u16| 4 <= k < 16 implies #[trigger] bit16(buttons, k) == bit16(pressed, k) by {
            assert((pressed | dpad) & (1u16 << k) == pressed & (1u16 << k)) by (bit_vector)
                requires
                    dpad <= 8,
                    4 <= k < 16,
            ;
        }
        assert(!bit16(pressed, 0) && !bit16(pressed, 1) && !bit16(pressed, 2) && !bit16(pressed, 3));
        assert((pressed | dpad) & 0xF == dpad) by (bit_vector)
            requires
                dpad <= 8,
                pressed & (1u16 << 0u16) == 0,
                pressed & (1u16 << 1u16) == 0,
                pressed & (1u16 << 2u16) == 0,
                pressed & (1u16 << 3u16) == 0,
        ;
    }
    Ds4Report {
        buttons,
        special: if Button::Home.is_pressed(data.buttons) { 1 } else { 0 },
        trigger_l: if Button::L2.is_pressed(data.buttons) { 255 } else { data.l2_analog },
        trigger_r: if Button::R2.is_pressed(data.buttons) { 255 } else { data.r2_analog },
        thumb_lx: data.left_stick_x,
        thumb_ly: data.left_stick_y,
        thumb_rx: data.right_stick_x,
        thumb_ry: data.right_stick_y,
    }
}

/// The buttons of an Xbox 360 report, bit by bit, from the gamepad
/// buttons (bit `i` of the gamepad field is the button of index `i`: A 0,
/// B 1, X 2, Y 3, Up 4, Down 5, Left 6, Right 7, Start 8, Select 9, L1 10,
/// R1 11, LStick 18, RStick 19, Home 20): the d-pad Up, Down, Left, Right,
/// Start, Back from Select, the stick clicks, the shoulders from L1/R1,
/// Guide from Home, bit 11 unused, then A, B, X, Y.
pub proof fn law_xbox_button_layout(data: Controller, r: XusbReport)
    requires
        forall|k: u16| k < 16 ==> #[trigger] bit16(r.buttons, k) == source_pressed(xbox_source(k), data.buttons),
    ensures
        bit16(r.buttons, 0) == bit64(data.buttons, 4),
        bit16(r.buttons, 1) == bit64(data.buttons, 5),
        bit16(r.buttons, 2) == bit64(data.buttons, 6),
        bit16(r.buttons, 3) == bit64(data.buttons, 7),
        bit16(r.buttons, 4) == bit64(data.buttons, 8),
        bit16(r.buttons, 5) == bit64(data.buttons, 9),
        bit16(r.buttons, 6) == bit64(data.buttons, 18),
        bit16(r.buttons, 7) == bit64(data.buttons, 19),
        bit16(r.buttons, 8) == bit64(data.buttons, 10),
        bit16(r.buttons, 9) == bit64(data.buttons, 11),
        bit16(r.buttons, 10) == bit64(data.buttons, 20),
        !bit16(r.buttons, 11),
        bit16(r.buttons, 12) == bit64(data.buttons, 0),
        bit16(r.buttons, 13) == bit64(data.buttons, 1),
        bit16(r.buttons, 14) == bit64(data.buttons, 2),
        bit16(r.buttons, 15) == bit64(data.buttons, 3),
{
    assert(bit16(r.buttons, 0) == source_pressed(xbox_source(0), data.buttons));
    assert(bit16(r.buttons, 1) == source_pressed(xbox_source(1), data.buttons));
    assert(bit16(r.buttons, 2) == source_pressed(xbox_source(2), data.buttons));
    assert(bit16(r.buttons, 3) == source_pressed(xbox_source(3), data.buttons));
    assert(bit16(r.buttons, 4) == source_pressed(xbox_source(4), data.buttons));
    assert(bit16(r.buttons, 5) == source_pressed(xbox_source(5), data.buttons));
    assert(bit16(r.buttons, 6) == source_pressed(xbox_source(6), data.buttons));
    assert(bit16(r.buttons, 7) == source_pressed(xbox_source(7), data.buttons));
    assert(bit16(r.buttons, 8) == source_pressed(xbox_source(8), data.buttons));
    assert(bit16(r.buttons, 9) == source_pressed(xbox_source(9), data.buttons));
    assert(bit16(r.buttons, 10) == source_pressed(xbox_source(10), data.buttons));
    assert(bit16(r.buttons, 11) == source_pressed(xbox_source(11), data.buttons));
    assert(bit16(r.buttons, 12) == source_pressed(xbox_source(12), data.buttons));
    assert(bit16(r.buttons, 13) == source_pressed(xbox_source(13), data.buttons));
    assert(bit16(r.buttons, 14) == source_pressed(xbox_source(14), data.buttons));
    assert(bit16(r.buttons, 15) == source_pressed(xbox_source(15), data.buttons));
}

/// The buttons of a DualShock 4 report from the gamepad buttons (indices
/// as for the Xbox 360 report, and L2 12, R2 13): the d-pad direction in
/// the low four bits, clockwise from 0 (Up alone) through 2 (Right), 4
/// (Down) and 6 (Left), with the diagonals between, and 8 when the d-pad
/// is released or pressed otherwise; then Square from X, Cross from A,
/// Circle from B, Triangle from Y, L1, R1, L2, R2, Share from Select,
/// Options from Start and the stick clicks; and the PS button from Home.
pub proof fn law_ds4_button_layout(data: Controller, r: Ds4Report)
    requires
        r.buttons & 0xF == dpad_value(
            Button::Up.pressed_in(data.buttons),
            Button::Right.pressed_in(data.buttons),
            Button::Down.pressed_in(data.buttons),
            Button::Left.pressed_in(data.buttons),
        ),
        forall|k: u16| 4 <= k < 16 ==> #[trigger] bit16(r.buttons, k) == source_pressed(ds4_source(k), data.buttons),
        r.special == (if Button::Home.pressed_in(data.buttons) { 1u8 } else { 0u8 }),
    ensures
        ({
            let (up, down, left, right) = (bit64(data.buttons, 4), bit64(data.buttons, 5), bit64(data.buttons, 6), bit64(data.buttons, 7));
            r.buttons & 0xF == (if up && !right && !down && !left {
                0u16
            } else if up && right && !down && !left {
                1u16
            } else if !up && right && !down && !left {
                2u16
            } else if !up && right && down && !left {
                3u16
            } else if !up && !right && down && !left {
                4u16
            } else if !up && !right && down && left {
                5u16
            } else if !up && !right && !down && left {
                6u16
            } else if up && !right && !down && left {
                7u16
            } else {
                8u16
            })
        }),
        bit16(r.buttons, 4) == bit64(data.buttons, 2),
        bit16(r.buttons, 5) == bit64(data.buttons, 0),
        bit16(r.buttons, 6) == bit64(data.buttons, 1),
        bit16(r.buttons, 7) == bit64(data.buttons, 3),
        bit16(r.buttons, 8) == bit64(data.buttons, 10),
        bit16(r.buttons, 9) == bit64(data.buttons, 11),
        bit16(r.buttons, 10) == bit64(data.buttons, 12),
        bit16(r.buttons, 11) == bit64(data.buttons, 13),
        bit16(r.buttons, 12) == bit64(data.buttons, 9),
        bit16(r.buttons, 13) == bit64(data.buttons, 8),
        bit16(r.buttons, 14) == bit64(data.buttons, 18),
        bit16(r.buttons, 15) == bit64(data.buttons, 19),
        r.special == (if bit64(data.buttons, 20) { 1u8 } else { 0u8 }),
{
    assert(bit16(r.buttons, 4) == source_pressed(ds4_source(4), data.buttons));
    assert(bit16(r.buttons, 5) == source_pressed(ds4_source(5), data.buttons));
    assert(bit16(r.buttons, 6) == source_pressed(ds4_source(6), data.buttons));
    assert(bit16(r.buttons, 7) == source_pressed(ds4_source(7), data.buttons));
    assert(bit16(r.buttons, 8) == source_pressed(ds4_source(8), data.buttons));
    assert(bit16(r.buttons, 9) == source_pressed(ds4_source(9), data.buttons));
    assert(bit16(r.buttons, 10) == source_pressed(ds4_source(10), data.buttons));
    assert(bit16(r.buttons, 11) == source_pressed(ds4_source(11), data.buttons));
    assert(bit16(r.buttons, 12) == source_pressed(ds4_source(12), data.buttons));
    assert(bit16(r.buttons, 13) == source_pressed(ds4_source(13), data.buttons));
    assert(bit16(r.buttons, 14) == source_pressed(ds4_source(14), data.buttons));
    assert(bit16(r.buttons, 15) == source_pressed(ds4_source(15), data.buttons));
}

/// Each Xbox 360 button flag is the bit of its position.
proof fn lemma_xusb_flag_bits(w: u16)
    by (bit_vector)
    ensures
        xusb::has(w, xusb::DPAD_UP) == bit16(w, 0),
        xusb::has(w, xusb::DPAD_DOWN) == bit16(w, 1),
        xusb::has(w, xusb::DPAD_LEFT) == bit16(w, 2),
        xusb::has(w, xusb::DPAD_RIGHT) == bit16(w, 3),
        xusb::has(w, xusb::START) == bit16(w, 4),
        xusb::has(w, xusb::BACK) == bit16(w, 5),
        xusb::has(w, xusb::LEFT_THUMB) == bit16(w, 6),
        xusb::has(w, xusb::RIGHT_THUMB) == bit16(w, 7),
        xusb::has(w, xusb::LEFT_SHOULDER) == bit16(w, 8),
        xusb::has(w, xusb::RIGHT_SHOULDER) == bit16(w, 9),
        xusb::has(w, xusb::A) == bit16(w, 12),
        xusb::has(w, xusb::B) == bit16(w, 13),
        xusb::has(w, xusb::X) == bit16(w, 14),
        xusb::has(w, xusb::Y) == bit16(w, 15),
{
}

/// The buttons that an Xbox 360 report carries both ways: written by the
/// emulated pad and read by the XInput reader.
pub open spec fn xbox_round_trip_button(b: Button) -> bool {
    ||| b == Button::A
    ||| b == Button::B
    ||| b == Button::X
    ||| b == Button::Y
    ||| b == Button::Up
    ||| b == Button::Down
    ||| b == Button::Left
    ||| b == Button::Right
    ||| b == Button::Start
    ||| b == Button::Select
    ||| b == Button::L1
    ||| b == Button::R1
    ||| b == Button::LStick
    ||| b == Button::RStick
}

/// An Xbox 360 report written for a gamepad state and read back by the
/// XInput reader gives back the state's d-pad, face, shoulder, Start,
/// Select and stick-click buttons, and its four stick axes exactly.
pub proof fn law_xbox_report_read_back(data: Controller, st: XInputState, b: Button)
    requires
        forall|k: u16| k < 16 ==> #[trigger] bit16(st.gamepad.buttons, k) == source_pressed(xbox_source(k), data.buttons),
        st.gamepad.thumb_lx == thumb_value(data.left_stick_x),
        st.gamepad.thumb_ly == thumb_value(data.left_stick_y),
        st.gamepad.thumb_rx == thumb_value(data.right_stick_x),
        st.gamepad.thumb_ry == thumb_value(data.right_stick_y),
    ensures
        xbox_round_trip_button(b) ==> x_pressed(st, b) == b.pressed_in(data.buttons),
        pad_to_stick(st.gamepad.thumb_lx) == data.left_stick_x,
        pad_to_stick(st.gamepad.thumb_ly) == data.left_stick_y,
        pad_to_stick(st.gamepad.thumb_rx) == data.right_stick_x,
        pad_to_stick(st.gamepad.thumb_ry) == data.right_stick_y,
{
    let w = st.gamepad.buttons;
    lemma_xusb_flag_bits(w);
    assert(bit16(w, 0) == source_pressed(xbox_source(0), data.buttons));
    assert(bit16(w, 1) == source_pressed(xbox_source(1), data.buttons));
    assert(bit16(w, 2) == source_pressed(xbox_source(2), data.buttons));
    assert(bit16(w, 3) == source_pressed(xbox_source(3), data.buttons));
    assert(bit16(w, 4) == source_pressed(xbox_source(4), data.buttons));
    assert(bit16(w, 5) == source_pressed(xbox_source(5), data.buttons));
    assert(bit16(w, 6) == source_pressed(xbox_source(6), data.buttons));
    assert(bit16(w, 7) == source_pressed(xbox_source(7), data.buttons));
    assert(bit16(w, 8) == source_pressed(xbox_source(8), data.buttons));
    assert(bit16(w, 9) == source_pressed(xbox_source(9), data.buttons));
    assert(bit16(w, 12) == source_pressed(xbox_source(12), data.buttons));
    assert(bit16(w, 13) == source_pressed(xbox_source(13), data.buttons));
    assert(bit16(w, 14) == source_pressed(xbox_source(14), data.buttons));
    assert(bit16(w, 15) == source_pressed(xbox_source(15), data.buttons));
}

/// How the emulated pads of one kind follow a new list of virtual
/// devices to show.
#[derive(Clone, Debug)]
pub enum TargetPlan {
    /// The pads from index `from` on are unplugged and dropped.
    Unplug { from: usize },
    /// New pads are plugged in for these devices, in order, after the
    /// existing ones.
    Plug { ids: Vec<u128> },
    /// The pads stay as they are.
    Keep,
}

/// The change to `targets` emulated pads of one kind when the devices to
/// show become `ids`: the surplus pads go, or pads are added for the
/// devices beyond the existing ones; existing pads keep their devices.
pub fn target_plan(targets: usize, ids: &Vec<u128>) -> (p: TargetPlan)
    ensures
        ids@.len() < targets ==> p == (TargetPlan::Unplug { from: ids@.len() as usize }),
        ids@.len() > targets ==> (p matches TargetPlan::Plug { ids: v } && v@ == ids@.subrange(targets as int, ids@.len() as int)),
        ids@.len() == targets ==> p == TargetPlan::Keep,
{
    if ids.len() < targets {
        TargetPlan::Unplug { from: ids.len() }
    } else if ids.len() > targets {
        let mut v: Vec<u128> = Vec::new();
        let mut i: usize = targets;
        while i < ids.len()
            invariant
                targets <= i <= ids@.len(),
                v@ == ids@.subrange(targets as int, i as int),
            decreases ids@.len() - i,
        {
            v.push(ids[i]);
            assert(v@ =~= ids@.subrange(targets as int, i + 1));
            i = i + 1;
        }
        TargetPlan::Plug { ids: v }
    } else {
        TargetPlan::Keep
    }
}

/// The pads to refresh when device `rid` changes: the indices, in
/// ascending order, of the pads that show it.
pub fn targets_for_update(target_ids: &Vec<u128>, rid: u128) -> (idx: Vec<usize>)
    ensures
        forall|i: int| 0 <= i < idx@.len() ==> #[trigger] idx@[i] < target_ids@.len() && target_ids@[idx@[i] as int] == rid,
        forall|i: int, j: int| 0 <= i < j < idx@.len() ==> idx@[i] < idx@[j],
        forall|k: int| 0 <= k < target_ids@.len() && #[trigger] target_ids@[k] == rid ==> idx@.contains(k as usize),
{
    let mut idx: Vec<usize> = Vec::new();
    let mut k: usize = 0;
    while k < target_ids.len()
        invariant
            k <= target_ids@.len(),
            forall|i: int| 0 <= i < idx@.len() ==> #[trigger] idx@[i] < k && target_ids@[idx@[i] as int] == rid,
            forall|i: int, j: int| 0 <= i < j < idx@.len() ==> idx@[i] < idx@[j],
            forall|t: int| 0 <= t < k && #[trigger] target_ids@[t] == rid ==> idx@.contains(t as usize),
        decreases target_ids@.len() - k,
    {
        if target_ids[k] == rid {
            let ghost before = idx@;
            idx.push(k);
            proof {
                assert forall|t: int| 0 <= t < k + 1 && #[trigger] target_ids@[t] == rid implies idx@.contains(t as usize) by {
                    if t < k {
                        let w = choose|w: int| 0 <= w < before.len() && before[w] == t as usize;
                        assert(idx@[w] == t as usize);
                    } else {
                        assert(idx@[before.len() as int] == k);
                    }
                }
            }
        }
        k = k + 1;
    }
    idx
}

} // verus!
