//! PowerA wired Pro Controller, read through its raw 8-byte USB report:
//! two button bytes, a hat, then the four stick axes.
use vstd::prelude::*;
use crate::bits::{bit64, bit8};
use crate::text::{digit_chars, with_number};
use crate::component::controller::{Analog, Button, Controller, ControllerInfo, mask_of, buttons_mask, pack_buttons};

verus! {

/// Size of the report.
pub const REPORT_LEN: usize = 8;

/// The hat value `hat` points up (up-left, up, up-right).
pub open spec fn hat_up(hat: u8) -> bool {
    hat == 7 || hat == 0 || hat == 1
}

/// The hat value `hat` points right.
pub open spec fn hat_right(hat: u8) -> bool {
    hat == 1 || hat == 2 || hat == 3
}

/// The hat value `hat` points down.
pub open spec fn hat_down(hat: u8) -> bool {
    hat == 3 || hat == 4 || hat == 5
}

/// The hat value `hat` points left.
pub open spec fn hat_left(hat: u8) -> bool {
    hat == 5 || hat == 6 || hat == 7
}

/// Whether the report presses controller button `b`: face and shoulder
/// buttons come from bits 0..8 of byte 0 (Y, B, A, X, L1, R1, L2, R2),
/// the others from bits 0..6 of byte 1 (Select, Start, LStick, RStick,
/// Home, Capture), the directions from the hat in byte 2; L3, R3, L4, R4
/// are never pressed.
pub open spec fn report_pressed(data: [u8; 8], b: Button) -> bool {
    match b {
        Button::Y => bit8(data[0], 0),
        Button::B => bit8(data[0], 1),
        Button::A => bit8(data[0], 2),
        Button::X => bit8(data[0], 3),
        Button::L1 => bit8(data[0], 4),
        Button::R1 => bit8(data[0], 5),
        Button::L2 => bit8(data[0], 6),
        Button::R2 => bit8(data[0], 7),
        Button::Select => bit8(data[1], 0),
        Button::Start => bit8(data[1], 1),
        Button::LStick => bit8(data[1], 2),
        Button::RStick => bit8(data[1], 3),
        Button::Home => bit8(data[1], 4),
        Button::Capture => bit8(data[1], 5),
        Button::Up => hat_up(data[2]),
        Button::Right => hat_right(data[2]),
        Button::Down => hat_down(data[2]),
        Button::Left => hat_left(data[2]),
        _ => false,
    }
}

/// The gamepad buttons of a report, bit by bit (bit `i` of the gamepad field is the button of index `i`: A 0, B 1, X 2,
/// Y 3, Up 4, Down 5, Left 6, Right 7, Start 8, Select 9, L1 10, R1 11,
/// L2 12, R2 13, L3 14, R3 15, L4 16, R4 17, LStick 18, RStick 19, Home
/// 20, Capture 21):
/// byte 0 holds Y, B, A, X, L1, R1, L2, R2 (bits 0 to 7), byte 1 Select,
/// Start, LStick, RStick, Home, Capture (bits 0 to 5); the hat in byte 2
/// presses Up at 7, 0 and 1, Right at 1 to 3, Down at 3 to 5 and Left at 5
/// to 7; L3, R3, L4 and R4 are never pressed.
pub proof fn law_report_button_layout(data: [u8; 8], out: u64)
    requires
        forall|j: u64| j < 64 ==> #[trigger] bit64(out, j) == (j < 22 && report_pressed(data, Button::from_index(j))),
    ensures
        bit64(out, 0) == (bit8(data[0], 2)),
        bit64(out, 1) == (bit8(data[0], 1)),
        bit64(out, 2) == (bit8(data[0], 3)),
        bit64(out, 3) == (bit8(data[0], 0)),
        bit64(out, 4) == (data[2] == 7 || data[2] == 0 || data[2] == 1),
        bit64(out, 5) == (data[2] == 3 || data[2] == 4 || data[2] == 5),
        bit64(out, 6) == (data[2] == 5 || data[2] == 6 || data[2] == 7),
        bit64(out, 7) == (data[2] == 1 || data[2] == 2 || data[2] == 3),
        bit64(out, 8) == (bit8(data[1], 1)),
        bit64(out, 9) == (bit8(data[1], 0)),
        bit64(out, 10) == (bit8(data[0], 4)),
        bit64(out, 11) == (bit8(data[0], 5)),
        bit64(out, 12) == (bit8(data[0], 6)),
        bit64(out, 13) == (bit8(data[0], 7)),
        !bit64(out, 14),
        !bit64(out, 15),
        !bit64(out, 16),
        !bit64(out, 17),
        bit64(out, 18) == (bit8(data[1], 2)),
        bit64(out, 19) == (bit8(data[1], 3)),
        bit64(out, 20) == (bit8(data[1], 4)),
        bit64(out, 21) == (bit8(data[1], 5)),
        forall|j: u64| 22 <= j < 64 ==> !#[trigger] bit64(out, j),
{
    assert(bit64(out, 0) == report_pressed(data, Button::A));
    assert(bit64(out, 1) == report_pressed(data, Button::B));
    assert(bit64(out, 2) == report_pressed(data, Button::X));
    assert(bit64(out, 3) == report_pressed(data, Button::Y));
    assert(bit64(out, 4) == report_pressed(data, Button::Up));
    assert(bit64(out, 5) == report_pressed(data, Button::Down));
    assert(bit64(out, 6) == report_pressed(data, Button::Left));
    assert(bit64(out, 7) == report_pressed(data, Button::Right));
    assert(bit64(out, 8) == report_pressed(data, Button::Start));
    assert(bit64(out, 9) == report_pressed(data, Button::Select));
    assert(bit64(out, 10) == report_pressed(data, Button::L1));
    assert(bit64(out, 11) == report_pressed(data, Button::R1));
    assert(bit64(out, 12) == report_pressed(data, Button::L2));
    assert(bit64(out, 13) == report_pressed(data, Button::R2));
    assert(bit64(out, 14) == report_pressed(data, Button::L3));
    assert(bit64(out, 15) == report_pressed(data, Button::R3));
    assert(bit64(out, 16) == report_pressed(data, Button::L4));
    assert(bit64(out, 17) == report_pressed(data, Button::R4));
    assert(bit64(out, 18) == report_pressed(data, Button::LStick));
    assert(bit64(out, 19) == report_pressed(data, Button::RStick));
    assert(bit64(out, 20) == report_pressed(data, Button::Home));
    assert(bit64(out, 21) == report_pressed(data, Button::Capture));
}

/// Whether the report presses controller button `b`.
pub fn is_pressed_in_report(data: &[u8; 8], b: Button) -> (r: bool)
    ensures
        r == report_pressed(*data, b),
{
    let d0 = data[0];
    let d1 = data[1];
    let hat = data[2];
    match b {
        Button::Y => d0 & (1u8 << 0u8) != 0,
        Button::B => d0 & (1u8 << 1u8) != 0,
        Button::A => d0 & (1u8 << 2u8) != 0,
        Button::X => d0 & (1u8 << 3u8) != 0,
        Button::L1 => d0 & (1u8 << 4u8) != 0,
        Button::R1 => d0 & (1u8 << 5u8) != 0,
        Button::L2 => d0 & (1u8 << 6u8) != 0,
        Button::R2 => d0 & (1u8 << 7u8) != 0,
        Button::Select => d1 & (1u8 << 0u8) != 0,
        Button::Start => d1 & (1u8 << 1u8) != 0,
        Button::LStick => d1 & (1u8 << 2u8) != 0,
        Button::RStick => d1 & (1u8 << 3u8) != 0,
        Button::Home => d1 & (1u8 << 4u8) != 0,
        Button::Capture => d1 & (1u8 << 5u8) != 0,
        Button::Up => hat == 7 || hat == 0 || hat == 1,
        Button::Right => hat == 1 || hat == 2 || hat == 3,
        Button::Down => hat == 3 || hat == 4 || hat == 5,
        Button::Left => hat == 5 || hat == 6 || hat == 7,
        _ => false,
    }
}

/// The button field of a report.
pub fn report_buttons(data: &[u8; 8]) -> (out: u64)
    ensures
        forall|j: u64| j < 64 ==> #[trigger] bit64(out, j) == (j < 22 && report_pressed(*data, Button::from_index(j))),
{
    let all = Button::buttons();
    let mut flags = [false; 22];
    let mut i: usize = 0;
    while i < 22
        invariant
            i <= 22,
            forall|k: int| 0 <= k < 22 ==> (#[trigger] all[k]).index() == k,
            forall|k: int| 0 <= k < i ==> #[trigger] flags[k] == report_pressed(*data, Button::from_index(k as u64)),
        decreases 22 - i,
    {
        let b = all[i];
        proof {
            crate::component::controller::lemma_button_index_roundtrip(b);
        }
        flags[i] = is_pressed_in_report(data, b);
        i = i + 1;
    }
    pack_buttons(&flags)
}

/// Applies a report to the controller state: the buttons as
/// `report_buttons`, the digital L2/R2 as full (255) or released (0)
/// triggers, the left and right sticks from bytes 3..7 with the vertical
/// axes flipped (`255 - y`). L1 and R1 analogs are kept.
pub fn update_from_report(ctrl: &mut Controller, data: &[u8; 8])
    ensures
        forall|j: u64| j < 64 ==> #[trigger] bit64(final(ctrl).buttons, j) == (j < 22 && report_pressed(*data, Button::from_index(j))),
        final(ctrl).l2_analog == (if report_pressed(*data, Button::L2) { 255u8 } else { 0u8 }),
        final(ctrl).r2_analog == (if report_pressed(*data, Button::R2) { 255u8 } else { 0u8 }),
        final(ctrl).left_stick_x == data[3],
        final(ctrl).left_stick_y == 255 - data[4],
        final(ctrl).right_stick_x == data[5],
        final(ctrl).right_stick_y == 255 - data[6],
        final(ctrl).l1_analog == old(ctrl).l1_analog,
        final(ctrl).r1_analog == old(ctrl).r1_analog,
{
    let buttons = report_buttons(data);
    ctrl.buttons = buttons;
    proof {
        assert(Button::from_index(Button::L2.index()) == Button::L2);
        assert(Button::from_index(Button::R2.index()) == Button::R2);
        assert(bit64(buttons, Button::L2.index()) == report_pressed(*data, Button::L2));
        assert(bit64(buttons, Button::R2.index()) == report_pressed(*data, Button::R2));
    }
    ctrl.l2_analog = if Button::L2.is_pressed(buttons) { 255 } else { 0 };
    ctrl.r2_analog = if Button::R2.is_pressed(buttons) { 255 } else { 0 };
    ctrl.left_stick_x = data[3];
    ctrl.left_stick_y = 255 - data[4];
    ctrl.right_stick_x = data[5];
    ctrl.right_stick_y = 255 - data[6];
}

/// The buttons of the controller.
pub open spec fn info_buttons() -> Seq<Button> {
    seq![
        Button::A, Button::B, Button::X, Button::Y, Button::Up, Button::Down, Button::Left, Button::Right,
        Button::Start, Button::Select, Button::L1, Button::R1, Button::L2, Button::R2, Button::LStick,
        Button::RStick, Button::Home, Button::Capture,
    ]
}

/// Description of the controller: its buttons and both sticks.
pub fn controller_info() -> (i: ControllerInfo)
    ensures
        i == (ControllerInfo { buttons: 0, analogs: 0 }.added(Analog::LStick).added(Analog::RStick).with_buttons(mask_of(info_buttons()))),
{
    let info = ControllerInfo { buttons: 0, analogs: 0 }.with_lstick().with_rstick();
    let list = [
        Button::A, Button::B, Button::X, Button::Y, Button::Up, Button::Down, Button::Left, Button::Right,
        Button::Start, Button::Select, Button::L1, Button::R1, Button::L2, Button::R2, Button::LStick,
        Button::RStick, Button::Home, Button::Capture,
    ];
    assert(list@ =~= info_buttons());
    ControllerInfo { buttons: buttons_mask(&list), analogs: info.analogs }
}

/// The display name of a controller behind adaptor `adaptor_id`.
pub fn device_name(adaptor_id: u64) -> (s: String)
    ensures
        s@ == "PowerA Wired Pro Controller (Adaptor "@ + digit_chars(adaptor_id as nat, 10) + ")"@,
{
    with_number("PowerA Wired Pro Controller (Adaptor ", adaptor_id as u128, ")")
}

} // verus!
