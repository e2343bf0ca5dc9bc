//! Steam Controller (wireless, through its USB dongle): mapping of its
//! buttons, pads and triggers onto a gamepad and two touch pads.
use vstd::prelude::*;
use crate::bits::{bit64, lemma_bit64_and, lemma_bit64_or_both, lemma_bit64_single};
use crate::component::controller::{Analog, Button, Controller, ControllerInfo, mask_of, buttons_mask, pack_buttons};
use crate::component::touch_pad::TouchPad;
use crate::text::{digit_chars, with_number};

verus! {

/// A button of the Steam Controller as its report names it.
#[derive(Copy, Clone, Debug, PartialEq, Eq, Structural)]
pub enum ScButton {
    RClick,
    LClick,
    RGrip,
    LGrip,
    Start,
    Steam,
    Back,
    A,
    X,
    B,
    Y,
    Lb,
    Rb,
    Lt,
    Rt,
    LPadTouch,
    RPadTouch,
}

impl ScButton {
    /// The button's bit in `ScButtons::pressed`.
    pub open spec fn index(self) -> u32 {
        match self {
            ScButton::RClick => 0,
            ScButton::LClick => 1,
            ScButton::RGrip => 2,
            ScButton::LGrip => 3,
            ScButton::Start => 4,
            ScButton::Steam => 5,
            ScButton::Back => 6,
            ScButton::A => 7,
            ScButton::X => 8,
            ScButton::B => 9,
            ScButton::Y => 10,
            ScButton::Lb => 11,
            ScButton::Rb => 12,
            ScButton::Lt => 13,
            ScButton::Rt => 14,
            ScButton::LPadTouch => 15,
            ScButton::RPadTouch => 16,
        }
    }

    /// The button's bit in `ScButtons::pressed`.
    pub fn bit(self) -> (b: u32)
        ensures
            b == self.index(),
    {
        match self {
            ScButton::RClick => 0,
            ScButton::LClick => 1,
            ScButton::RGrip => 2,
            ScButton::LGrip => 3,
            ScButton::Start => 4,
            ScButton::Steam => 5,
            ScButton::Back => 6,
            ScButton::A => 7,
            ScButton::X => 8,
            ScButton::B => 9,
            ScButton::Y => 10,
            ScButton::Lb => 11,
            ScButton::Rb => 12,
            ScButton::Lt => 13,
            ScButton::Rt => 14,
            ScButton::LPadTouch => 15,
            ScButton::RPadTouch => 16,
        }
    }
}

/// The pressed buttons of a report, one bit per `ScButton`.
#[derive(Copy, Clone, Debug, Default, PartialEq, Eq, Structural)]
pub struct ScButtons {
    pub pressed: u32,
}

impl ScButtons {
    /// The button is pressed.
    pub open spec fn has(self, b: ScButton) -> bool {
        self.pressed & (1u32 << b.index()) != 0
    }

    /// Whether the button is pressed.
    pub fn is_pressed(&self, b: ScButton) -> (r: bool)
        ensures
            r == self.has(b),
    {
        self.pressed & (1u32 << b.bit()) != 0
    }
}

/// A pad position; each axis spans the whole `i16` range, 0 at the centre.
#[derive(Copy, Clone, Debug, Default, PartialEq, Eq, Structural)]
pub struct Pad {
    pub x: i16,
    pub y: i16,
}

/// What the logic reads of a decoded report.
#[derive(Copy, Clone, Debug, Default, PartialEq, Eq, Structural)]
pub struct ScState {
    pub buttons: ScButtons,
    pub left_pad: Pad,
    pub right_pad: Pad,
    pub left_trigger: u8,
    pub right_trigger: u8,
}

/// The quotient of `v / 256` rounded toward zero, as Rust divides.
pub open spec fn div256(v: i16) -> int {
    if v >= 0 {
        v as int / 256
    } else {
        -((-(v as int)) / 256)
    }
}

/// A pad axis as an 8-bit stick axis: `v / 256 + 128`.
pub open spec fn pad_to_stick(v: i16) -> u8 {
    (div256(v) + 128) as u8
}

/// Converts a pad axis to an 8-bit stick axis.
pub fn stick_from_pad(v: i16) -> (s: u8)
    ensures
        s == pad_to_stick(v),
{
    let q: i16 = v / 256;
    assert(-128 <= q <= 127 && q == div256(v));
    (q + 128) as u8
}

/// A pad axis as a touch coordinate: `v + 32768`.
pub fn touch_from_pad(v: i16) -> (t: u16)
    ensures
        t == v + 32768,
{
    ((v as i32) + 32768) as u16
}

/// Whether the report presses controller button `b`, before the kept
/// directions or stick click are added. The left pad, when touched, acts as
/// a d-pad: clicking it presses the direction whose axis is beyond 8192;
/// when not touched, clicking it is a stick click.
pub open spec fn sc_pressed(st: ScState, b: Button) -> bool {
    let touch = st.buttons.has(ScButton::LPadTouch);
    let click = st.buttons.has(ScButton::LClick);
    match b {
        Button::RStick => st.buttons.has(ScButton::RClick),
        Button::LStick => click && !touch,
        Button::Up => click && touch && st.left_pad.y > 8192,
        Button::Down => click && touch && st.left_pad.y < -8192,
        Button::Left => click && touch && st.left_pad.x < -8192,
        Button::Right => click && touch && st.left_pad.x > 8192,
        Button::R3 => st.buttons.has(ScButton::RGrip),
        Button::L3 => st.buttons.has(ScButton::LGrip),
        Button::Start => st.buttons.has(ScButton::Start),
        Button::Home => st.buttons.has(ScButton::Steam),
        Button::Select => st.buttons.has(ScButton::Back),
        Button::B => st.buttons.has(ScButton::A),
        Button::Y => st.buttons.has(ScButton::X),
        Button::A => st.buttons.has(ScButton::B),
        Button::X => st.buttons.has(ScButton::Y),
        Button::L1 => st.buttons.has(ScButton::Lb),
        Button::R1 => st.buttons.has(ScButton::Rb),
        Button::L2 => st.buttons.has(ScButton::Lt),
        Button::R2 => st.buttons.has(ScButton::Rt),
        _ => false,
    }
}

/// The gamepad buttons after a report, bit by bit (bit `i` of the gamepad
/// field is the button of index `i`: A 0, B 1, X 2, Y 3, Up 4, Down 5,
/// Left 6, Right 7, Start 8, Select 9, L1 10, R1 11, L2 12, R2 13, L3 14,
/// R3 15, LStick 18, RStick 19, Home 20). The controller's A, B, X, Y give
/// the gamepad's B, A, Y, X; Back is Select, Steam is Home, the bumpers
/// and triggers are L1/R1 and L2/R2, the grips L3/R3, the right pad click
/// the right stick click. While the left pad is touched, clicking it
/// presses Up when the pad's y is above 8192, Down when below -8192, Right
/// when its x is above 8192 and Left when below -8192, and the left stick
/// click kept from before stays; while it is not touched, clicking it is
/// the left stick click and the d-pad kept from before stays.
pub proof fn law_steam_button_layout(prev: u64, st: ScState, out: u64)
    requires
        forall|j: u64| j < 64 ==> #[trigger] bit64(out, j) == (kept_bit(prev, st.buttons.has(ScButton::LPadTouch), j) || (j < 22 && sc_pressed(st, Button::from_index(j)))),
    ensures
        ({
            let touch = st.buttons.has(ScButton::LPadTouch);
            let click = st.buttons.has(ScButton::LClick);
            let (x, y) = (st.left_pad.x, st.left_pad.y);
            &&& bit64(out, 0) == st.buttons.has(ScButton::B)
            &&& bit64(out, 1) == st.buttons.has(ScButton::A)
            &&& bit64(out, 2) == st.buttons.has(ScButton::Y)
            &&& bit64(out, 3) == st.buttons.has(ScButton::X)
            &&& bit64(out, 4) == ((!touch && bit64(prev, 4)) || (click && touch && y > 8192))
            &&& bit64(out, 5) == ((!touch && bit64(prev, 5)) || (click && touch && y < -8192))
            &&& bit64(out, 6) == ((!touch && bit64(prev, 6)) || (click && touch && x < -8192))
            &&& bit64(out, 7) == ((!touch && bit64(prev, 7)) || (click && touch && x > 8192))
            &&& bit64(out, 8) == st.buttons.has(ScButton::Start)
            &&& bit64(out, 9) == st.buttons.has(ScButton::Back)
            &&& bit64(out, 10) == st.buttons.has(ScButton::Lb)
            &&& bit64(out, 11) == st.buttons.has(ScButton::Rb)
            &&& bit64(out, 12) == st.buttons.has(ScButton::Lt)
            &&& bit64(out, 13) == st.buttons.has(ScButton::Rt)
            &&& bit64(out, 14) == st.buttons.has(ScButton::LGrip)
            &&& bit64(out, 15) == st.buttons.has(ScButton::RGrip)
            &&& !bit64(out, 16) && !bit64(out, 17) && !bit64(out, 21)
            &&& bit64(out, 18) == ((touch && bit64(prev, 18)) || (click && !touch))
            &&& bit64(out, 19) == st.buttons.has(ScButton::RClick)
            &&& bit64(out, 20) == st.buttons.has(ScButton::Steam)
        }),
        forall|j: u64| 22 <= j < 64 ==> !#[trigger] bit64(out, j),
{
    let touch = st.buttons.has(ScButton::LPadTouch);
    assert(bit64(out, 0) == (kept_bit(prev, touch, 0) || sc_pressed(st, Button::A)));
    assert(bit64(out, 1) == (kept_bit(prev, touch, 1) || sc_pressed(st, Button::B)));
    assert(bit64(out, 2) == (kept_bit(prev, touch, 2) || sc_pressed(st, Button::X)));
    assert(bit64(out, 3) == (kept_bit(prev, touch, 3) || sc_pressed(st, Button::Y)));
    assert(bit64(out, 4) == (kept_bit(prev, touch, 4) || sc_pressed(st, Button::Up)));
    assert(bit64(out, 5) == (kept_bit(prev, touch, 5) || sc_pressed(st, Button::Down)));
    assert(bit64(out, 6) == (kept_bit(prev, touch, 6) || sc_pressed(st, Button::Left)));
    assert(bit64(out, 7) == (kept_bit(prev, touch, 7) || sc_pressed(st, Button::Right)));
    assert(bit64(out, 8) == (kept_bit(prev, touch, 8) || sc_pressed(st, Button::Start)));
    assert(bit64(out, 9) == (kept_bit(prev, touch, 9) || sc_pressed(st, Button::Select)));
    assert(bit64(out, 10) == (kept_bit(prev, touch, 10) || sc_pressed(st, Button::L1)));
    assert(bit64(out, 11) == (kept_bit(prev, touch, 11) || sc_pressed(st, Button::R1)));
    assert(bit64(out, 12) == (kept_bit(prev, touch, 12) || sc_pressed(st, Button::L2)));
    assert(bit64(out, 13) == (kept_bit(prev, touch, 13) || sc_pressed(st, Button::R2)));
    assert(bit64(out, 14) == (kept_bit(prev, touch, 14) || sc_pressed(st, Button::L3)));
    assert(bit64(out, 15) == (kept_bit(prev, touch, 15) || sc_pressed(st, Button::R3)));
    assert(bit64(out, 16) == (kept_bit(prev, touch, 16) || sc_pressed(st, Button::L4)));
    assert(bit64(out, 17) == (kept_bit(prev, touch, 17) || sc_pressed(st, Button::R4)));
    assert(bit64(out, 18) == (kept_bit(prev, touch, 18) || sc_pressed(st, Button::LStick)));
    assert(bit64(out, 19) == (kept_bit(prev, touch, 19) || sc_pressed(st, Button::RStick)));
    assert(bit64(out, 20) == (kept_bit(prev, touch, 20) || sc_pressed(st, Button::Home)));
    assert(bit64(out, 21) == (kept_bit(prev, touch, 21) || sc_pressed(st, Button::Capture)));
}

/// Whether the report presses controller button `b`.
pub fn sc_is_pressed(st: &ScState, b: Button) -> (r: bool)
    ensures
        r == sc_pressed(*st, b),
{
    let touch = st.buttons.is_pressed(ScButton::LPadTouch);
    let click = st.buttons.is_pressed(ScButton::LClick);
    match b {
        Button::RStick => st.buttons.is_pressed(ScButton::RClick),
        Button::LStick => click && !touch,
        Button::Up => click && touch && st.left_pad.y > 8192,
        Button::Down => click && touch && st.left_pad.y < -8192,
        Button::Left => click && touch && st.left_pad.x < -8192,
        Button::Right => click && touch && st.left_pad.x > 8192,
        Button::R3 => st.buttons.is_pressed(ScButton::RGrip),
        Button::L3 => st.buttons.is_pressed(ScButton::LGrip),
        Button::Start => st.buttons.is_pressed(ScButton::Start),
        Button::Home => st.buttons.is_pressed(ScButton::Steam),
        Button::Select => st.buttons.is_pressed(ScButton::Back),
        Button::B => st.buttons.is_pressed(ScButton::A),
        Button::Y => st.buttons.is_pressed(ScButton::X),
        Button::A => st.buttons.is_pressed(ScButton::B),
        Button::X => st.buttons.is_pressed(ScButton::Y),
        Button::L1 => st.buttons.is_pressed(ScButton::Lb),
        Button::R1 => st.buttons.is_pressed(ScButton::Rb),
        Button::L2 => st.buttons.is_pressed(ScButton::Lt),
        Button::R2 => st.buttons.is_pressed(ScButton::Rt),
        _ => false,
    }
}

/// Bit `j` of the previous button field is kept: while the left pad is
/// touched, the left-stick click; otherwise the four directions.
pub open spec fn kept_bit(prev: u64, touch: bool, j: u64) -> bool {
    if touch {
        j == 18 && bit64(prev, j)
    } else {
        4 <= j <= 7 && bit64(prev, j)
    }
}

/// Applies a report to the gamepad state. The button field is the kept
/// part of the previous field (see `kept_bit`) plus the buttons the report
/// presses; the triggers and the right stick follow the report; the left
/// stick follows the left pad only while it is not touched.
pub fn update_controller(ctrl: &mut Controller, st: &ScState)
    ensures
        forall|j: u64| j < 64 ==> #[trigger] bit64(final(ctrl).buttons, j) == (kept_bit(old(ctrl).buttons, st.buttons.has(ScButton::LPadTouch), j) || (j < 22 && sc_pressed(*st, Button::from_index(j)))),
        final(ctrl).l2_analog == st.left_trigger,
        final(ctrl).r2_analog == st.right_trigger,
        final(ctrl).right_stick_x == pad_to_stick(st.right_pad.x),
        final(ctrl).right_stick_y == pad_to_stick(st.right_pad.y),
        final(ctrl).left_stick_x == (if st.buttons.has(ScButton::LPadTouch) { old(ctrl).left_stick_x } else { pad_to_stick(st.left_pad.x) }),
        final(ctrl).left_stick_y == (if st.buttons.has(ScButton::LPadTouch) { old(ctrl).left_stick_y } else { pad_to_stick(st.left_pad.y) }),
        final(ctrl).l1_analog == old(ctrl).l1_analog,
        final(ctrl).r1_analog == old(ctrl).r1_analog,
{
    let touch = st.buttons.is_pressed(ScButton::LPadTouch);
    let prev = ctrl.buttons;
    let keep_mask: u64 = if touch {
        1u64 << 18u64
    } else {
        (1u64 << 4u64) | (1u64 << 5u64) | (1u64 << 6u64) | (1u64 << 7u64)
    };
    let base = prev & keep_mask;
    let all = Button::buttons();
    let mut flags = [false; 22];
    let mut i: usize = 0;
    while i < 22
        invariant
            i <= 22,
            forall|k: int| 0 <= k < 22 ==> (#[trigger] all[k]).index() == k,
            forall|k: int| 0 <= k < i ==> #[trigger] flags[k] == sc_pressed(*st, Button::from_index(k as u64)),
        decreases 22 - i,
    {
        let b = all[i];
        proof {
            crate::component::controller::lemma_button_index_roundtrip(b);
        }
        flags[i] = sc_is_pressed(st, b);
        i = i + 1;
    }
    let pressed = pack_buttons(&flags);
    let out = base | pressed;
    proof {
        assert forall|j: u64| j < 64 implies #[trigger] bit64(out, j) == (kept_bit(prev, touch, j) || (j < 22 && sc_pressed(*st, Button::from_index(j)))) by {
            lemma_bit64_or_both(base, pressed, j);
            lemma_bit64_and(prev, keep_mask, j);
            if touch {
                lemma_bit64_single(18, j);
            } else {
                let m = keep_mask;
                assert(m == 0xF0u64) by (bit_vector)
                    requires
                        m == (1u64 << 4u64) | (1u64 << 5u64) | (1u64 << 6u64) | (1u64 << 7u64),
                ;
                assert((0xF0u64 & (1u64 << j) != 0) <==> (4 <= j && j <= 7)) by (bit_vector)
                    requires
                        j < 64,
                ;
            }
        }
    }
    ctrl.buttons = out;
    ctrl.l2_analog = st.left_trigger;
    ctrl.r2_analog = st.right_trigger;
    ctrl.right_stick_x = stick_from_pad(st.right_pad.x);
    ctrl.right_stick_y = stick_from_pad(st.right_pad.y);
    if !touch {
        ctrl.left_stick_x = stick_from_pad(st.left_pad.x);
        ctrl.left_stick_y = stick_from_pad(st.left_pad.y);
    }
}

/// Applies a report to the two touch pads: the right pad always follows
/// the right pad of the report; the left pad follows the left pad while it
/// is touched, and is otherwise released, untouched and centred at
/// `u16::MAX / 2`.
pub fn update_touch_pads(pads: &mut [TouchPad; 2], st: &ScState)
    ensures
        final(pads)[1] == (TouchPad {
            touch_x: (st.right_pad.x + 32768) as u16,
            touch_y: (st.right_pad.y + 32768) as u16,
            pressed: st.buttons.has(ScButton::RClick),
            touched: st.buttons.has(ScButton::RPadTouch),
        }),
        final(pads)[0] == (if st.buttons.has(ScButton::LPadTouch) {
            TouchPad {
                touch_x: (st.left_pad.x + 32768) as u16,
                touch_y: (st.left_pad.y + 32768) as u16,
                pressed: st.buttons.has(ScButton::LClick),
                touched: true,
            }
        } else {
            TouchPad { touch_x: 32767, touch_y: 32767, pressed: false, touched: false }
        }),
{
    pads[1] = TouchPad {
        touch_x: touch_from_pad(st.right_pad.x),
        touch_y: touch_from_pad(st.right_pad.y),
        pressed: st.buttons.is_pressed(ScButton::RClick),
        touched: st.buttons.is_pressed(ScButton::RPadTouch),
    };
    if st.buttons.is_pressed(ScButton::LPadTouch) {
        pads[0] = TouchPad {
            touch_x: touch_from_pad(st.left_pad.x),
            touch_y: touch_from_pad(st.left_pad.y),
            pressed: st.buttons.is_pressed(ScButton::LClick),
            touched: true,
        };
    } else {
        pads[0] = TouchPad { touch_x: u16::MAX / 2, touch_y: u16::MAX / 2, pressed: false, touched: false };
    }
}

/// The buttons of the controller.
pub open spec fn info_buttons() -> Seq<Button> {
    seq![
        Button::A, Button::B, Button::X, Button::Y, Button::Up, Button::Down, Button::Left, Button::Right,
        Button::Start, Button::Select, Button::L1, Button::R1, Button::L2, Button::R2, Button::L3, Button::R3,
        Button::LStick, Button::RStick, Button::Home,
    ]
}

/// Description of the controller: its buttons, both sticks and the L2/R2
/// triggers.
pub fn sc_controller_info() -> (i: ControllerInfo)
    ensures
        i == (ControllerInfo { buttons: 0, analogs: 0 }.added(Analog::LStick).added(Analog::RStick).added(Analog::L2).added(Analog::R2).with_buttons(mask_of(info_buttons()))),
{
    let info = ControllerInfo { buttons: 0, analogs: 0 }.with_lstick().with_rstick().with_l2_analog().with_r2_analog();
    let list = [
        Button::A, Button::B, Button::X, Button::Y, Button::Up, Button::Down, Button::Left, Button::Right,
        Button::Start, Button::Select, Button::L1, Button::R1, Button::L2, Button::R2, Button::L3, Button::R3,
        Button::LStick, Button::RStick, Button::Home,
    ];
    assert(list@ =~= info_buttons());
    ControllerInfo { buttons: buttons_mask(&list), analogs: info.analogs }
}

/// The display name of a controller behind adaptor `adaptor_id`.
pub fn device_name(adaptor_id: u64) -> (s: String)
    ensures
        s@ == "Steam Controller (Adaptor "@ + digit_chars(adaptor_id as nat, 10) + ")"@,
{
    with_number("Steam Controller (Adaptor ", adaptor_id as u128, ")")
}

} // verus!
