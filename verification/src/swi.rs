//! The Switch-input network protocol: controllers sent over UDP, read
//! by the receiving backend and written by the sending frontend.
use vstd::prelude::*;
use crate::bits::{bit16, bit64, lemma_bit16_or, lemma_bit16_zero};
use crate::text::{digit_chars, prefixed_number};
use crate::component::controller::{Analog, Button, Controller, ControllerInfo, mask_of, buttons_mask, pack_buttons};

verus! {

/// Number of controller slots of a packet.
pub const NUM_SLOTS: usize = 8;

/// A button of a Switch controller.
#[derive(Copy, Clone, Debug, PartialEq, Eq, Structural)]
pub enum SwiButton {
    Minus,
    LStick,
    RStick,
    Plus,
    Up,
    Right,
    Down,
    Left,
    ZL,
    ZR,
    L,
    R,
    Y,
    B,
    A,
    X,
}

impl SwiButton {
    /// The button's bit in `SwiButtons::pressed`.
    pub open spec fn index(self) -> u16 {
        match self {
            SwiButton::Minus => 0,
            SwiButton::LStick => 1,
            SwiButton::RStick => 2,
            SwiButton::Plus => 3,
            SwiButton::Up => 4,
            SwiButton::Right => 5,
            SwiButton::Down => 6,
            SwiButton::Left => 7,
            SwiButton::ZL => 8,
            SwiButton::ZR => 9,
            SwiButton::L => 10,
            SwiButton::R => 11,
            SwiButton::Y => 12,
            SwiButton::B => 13,
            SwiButton::A => 14,
            SwiButton::X => 15,
        }
    }

    /// The button whose bit is `k`, for `k < 16`.
    pub open spec fn from_index(k: u16) -> SwiButton {
        if k == 0 {
            SwiButton::Minus
        } else if k == 1 {
            SwiButton::LStick
        } else if k == 2 {
            SwiButton::RStick
        } else if k == 3 {
            SwiButton::Plus
        } else if k == 4 {
            SwiButton::Up
        } else if k == 5 {
            SwiButton::Right
        } else if k == 6 {
            SwiButton::Down
        } else if k == 7 {
            SwiButton::Left
        } else if k == 8 {
            SwiButton::ZL
        } else if k == 9 {
            SwiButton::ZR
        } else if k == 10 {
            SwiButton::L
        } else if k == 11 {
            SwiButton::R
        } else if k == 12 {
            SwiButton::Y
        } else if k == 13 {
            SwiButton::B
        } else if k == 14 {
            SwiButton::A
        } else {
            SwiButton::X
        }
    }

    /// All Switch buttons, in the order of their bits.
    pub fn all() -> (all: [SwiButton; 16])
        ensures
            forall|k: int| 0 <= k < 16 ==> (#[trigger] all[k]).index() == k,
    {
        [
            SwiButton::Minus,
            SwiButton::LStick,
            SwiButton::RStick,
            SwiButton::Plus,
            SwiButton::Up,
            SwiButton::Right,
            SwiButton::Down,
            SwiButton::Left,
            SwiButton::ZL,
            SwiButton::ZR,
            SwiButton::L,
            SwiButton::R,
            SwiButton::Y,
            SwiButton::B,
            SwiButton::A,
            SwiButton::X,
        ]
    }

    /// The button's bit in `SwiButtons::pressed`.
    pub fn bit(self) -> (b: u16)
        ensures
            b == self.index(),
    {
        match self {
            SwiButton::Minus => 0,
            SwiButton::LStick => 1,
            SwiButton::RStick => 2,
            SwiButton::Plus => 3,
            SwiButton::Up => 4,
            SwiButton::Right => 5,
            SwiButton::Down => 6,
            SwiButton::Left => 7,
            SwiButton::ZL => 8,
            SwiButton::ZR => 9,
            SwiButton::L => 10,
            SwiButton::R => 11,
            SwiButton::Y => 12,
            SwiButton::B => 13,
            SwiButton::A => 14,
            SwiButton::X => 15,
        }
    }
}

/// Each bit belongs to one Switch button.
pub proof fn lemma_swi_index_roundtrip(s: SwiButton)
    ensures
        SwiButton::from_index(s.index()) == s,
        s.index() < 16,
{
}

/// The pressed buttons of a Switch controller, one bit per `SwiButton`.
#[derive(Copy, Clone, Debug, Default, PartialEq, Eq, Structural)]
pub struct SwiButtons {
    pub pressed: u16,
}

impl SwiButtons {
    /// The button is pressed.
    pub open spec fn has(self, b: SwiButton) -> bool {
        bit16(self.pressed, b.index())
    }

    /// Whether the button is pressed.
    pub fn is_pressed(&self, b: SwiButton) -> (r: bool)
        ensures
            r == self.has(b),
    {
        self.pressed & (1u16 << b.bit()) != 0
    }

    /// Marks the button pressed; the others are kept.
    pub fn set_pressed(&mut self, b: SwiButton)
        ensures
            final(self).pressed == old(self).pressed | (1u16 << b.index()),
    {
        self.pressed = self.pressed | (1u16 << b.bit());
    }
}

/// What a packet carries of one controller, besides motion.
#[derive(Copy, Clone, Debug, Default)]
pub struct SwiController {
    pub number: u8,
    pub buttons: SwiButtons,
    pub left_stick: [u8; 2],
    pub right_stick: [u8; 2],
}

/// The Switch button that drives each gamepad button (and that each
/// gamepad button is sent as): Minus/Plus are Select/Start, L/R are L1/R1,
/// ZL/ZR are L2/R2; L3, R3, L4, R4, Home and Capture have none.
pub open spec fn swi_of(b: Button) -> Option<SwiButton> {
    match b {
        Button::Select => Some(SwiButton::Minus),
        Button::LStick => Some(SwiButton::LStick),
        Button::RStick => Some(SwiButton::RStick),
        Button::Start => Some(SwiButton::Plus),
        Button::Up => Some(SwiButton::Up),
        Button::Right => Some(SwiButton::Right),
        Button::Down => Some(SwiButton::Down),
        Button::Left => Some(SwiButton::Left),
        Button::L2 => Some(SwiButton::ZL),
        Button::R2 => Some(SwiButton::ZR),
        Button::L1 => Some(SwiButton::L),
        Button::R1 => Some(SwiButton::R),
        Button::Y => Some(SwiButton::Y),
        Button::B => Some(SwiButton::B),
        Button::A => Some(SwiButton::A),
        Button::X => Some(SwiButton::X),
        _ => None,
    }
}

/// The Switch button of a gamepad button, if any.
pub fn swi_button_of(b: Button) -> (s: Option<SwiButton>)
    ensures
        s == swi_of(b),
{
    match b {
        Button::Select => Some(SwiButton::Minus),
        Button::LStick => Some(SwiButton::LStick),
        Button::RStick => Some(SwiButton::RStick),
        Button::Start => Some(SwiButton::Plus),
        Button::Up => Some(SwiButton::Up),
        Button::Right => Some(SwiButton::Right),
        Button::Down => Some(SwiButton::Down),
        Button::Left => Some(SwiButton::Left),
        Button::L2 => Some(SwiButton::ZL),
        Button::R2 => Some(SwiButton::ZR),
        Button::L1 => Some(SwiButton::L),
        Button::R1 => Some(SwiButton::R),
        Button::Y => Some(SwiButton::Y),
        Button::B => Some(SwiButton::B),
        Button::A => Some(SwiButton::A),
        Button::X => Some(SwiButton::X),
        _ => None,
    }
}

/// The gamepad button is pressed on the received controller.
pub open spec fn received_pressed(buttons: SwiButtons, b: Button) -> bool {
    match swi_of(b) {
        Some(s) => buttons.has(s),
        None => false,
    }
}

/// The slot of a received controller: the low three bits of its number.
pub fn slot_of(number: u8) -> (s: usize)
    ensures
        s == number % 8,
        s < NUM_SLOTS,
{
    let s = number & 0b111;
    assert(s == number % 8) by (bit_vector)
        requires
            s == number & 0b111,
    ;
    s as usize
}

/// Applies a received controller to the gamepad state: its buttons
/// through `swi_of`, its sticks as they are. The analogs are kept.
pub fn update_from_received(ctrl: &mut Controller, from: &SwiController)
    ensures
        forall|j: u64| j < 64 ==> #[trigger] bit64(final(ctrl).buttons, j) == (j < 22 && received_pressed(from.buttons, Button::from_index(j))),
        final(ctrl).left_stick_x == from.left_stick[0],
        final(ctrl).left_stick_y == from.left_stick[1],
        final(ctrl).right_stick_x == from.right_stick[0],
        final(ctrl).right_stick_y == from.right_stick[1],
        final(ctrl).l1_analog == old(ctrl).l1_analog,
        final(ctrl).r1_analog == old(ctrl).r1_analog,
        final(ctrl).l2_analog == old(ctrl).l2_analog,
        final(ctrl).r2_analog == old(ctrl).r2_analog,
{
    let all = Button::buttons();
    let mut flags = [false; 22];
    let mut i: usize = 0;
    while i < 22
        invariant
            i <= 22,
            forall|k: int| 0 <= k < 22 ==> (#[trigger] all[k]).index() == k,
            forall|k: int| 0 <= k < i ==> #[trigger] flags[k] == received_pressed(from.buttons, Button::from_index(k as u64)),
        decreases 22 - i,
    {
        let b = all[i];
        proof {
            crate::component::controller::lemma_button_index_roundtrip(b);
        }
        flags[i] = match swi_button_of(b) {
            Some(s) => from.buttons.is_pressed(s),
            None => false,
        };
        i = i + 1;
    }
    ctrl.buttons = pack_buttons(&flags);
    ctrl.left_stick_x = from.left_stick[0];
    ctrl.left_stick_y = from.left_stick[1];
    ctrl.right_stick_x = from.right_stick[0];
    ctrl.right_stick_y = from.right_stick[1];
}

/// Which slots a packet fills: those of the numbers of its controllers.
pub fn connected_slots(numbers: &[u8]) -> (connected: [bool; 8])
    ensures
        forall|s: int| 0 <= s < 8 ==> #[trigger] connected[s] == exists|k: int| 0 <= k < numbers@.len() && numbers@[k] % 8 == s,
{
    let mut connected = [false; 8];
    let mut i: usize = 0;
    while i < numbers.len()
        invariant
            i <= numbers@.len(),
            forall|s: int| 0 <= s < 8 ==> #[trigger] connected[s] == exists|k: int| 0 <= k < i && numbers@[k] % 8 == s,
        decreases numbers@.len() - i,
    {
        let s = slot_of(numbers[i]);
        connected[s] = true;
        assert forall|t: int| 0 <= t < 8 implies #[trigger] connected[t] == exists|k: int| 0 <= k < i + 1 && numbers@[k] % 8 == t by {
            if t == s as int {
                assert(numbers@[i as int] % 8 == t);
            }
        }
        i = i + 1;
    }
    connected
}

/// The buttons of a received controller.
pub open spec fn info_buttons() -> Seq<Button> {
    seq![
        Button::A, Button::B, Button::X, Button::Y, Button::Up, Button::Down, Button::Left, Button::Right,
        Button::Start, Button::Select, Button::L1, Button::R1, Button::L2, Button::R2, Button::LStick, Button::RStick,
        Button::Home,
    ]
}

/// Description of a received controller: its buttons and both sticks.
pub fn controller_info() -> (i: ControllerInfo)
    ensures
        i == (ControllerInfo { buttons: 0, analogs: 0 }.added(Analog::LStick).added(Analog::RStick).with_buttons(mask_of(info_buttons()))),
{
    let info = ControllerInfo { buttons: 0, analogs: 0 }.with_lstick().with_rstick();
    let list = [
        Button::A, Button::B, Button::X, Button::Y, Button::Up, Button::Down, Button::Left, Button::Right,
        Button::Start, Button::Select, Button::L1, Button::R1, Button::L2, Button::R2, Button::LStick, Button::RStick,
        Button::Home,
    ];
    assert(list@ =~= info_buttons());
    ControllerInfo { buttons: buttons_mask(&list), analogs: info.analogs }
}

/// The gamepad button that each Switch button is sent from; the inverse
/// of `swi_of`.
pub open spec fn gamepad_of(s: SwiButton) -> Button {
    match s {
        SwiButton::Minus => Button::Select,
        SwiButton::LStick => Button::LStick,
        SwiButton::RStick => Button::RStick,
        SwiButton::Plus => Button::Start,
        SwiButton::Up => Button::Up,
        SwiButton::Right => Button::Right,
        SwiButton::Down => Button::Down,
        SwiButton::Left => Button::Left,
        SwiButton::ZL => Button::L2,
        SwiButton::ZR => Button::R2,
        SwiButton::L => Button::L1,
        SwiButton::R => Button::R1,
        SwiButton::Y => Button::Y,
        SwiButton::B => Button::B,
        SwiButton::A => Button::A,
        SwiButton::X => Button::X,
    }
}

/// The gamepad button that a Switch button is sent from.
pub fn gamepad_button_of(s: SwiButton) -> (b: Button)
    ensures
        b == gamepad_of(s),
{
    match s {
        SwiButton::Minus => Button::Select,
        SwiButton::LStick => Button::LStick,
        SwiButton::RStick => Button::RStick,
        SwiButton::Plus => Button::Start,
        SwiButton::Up => Button::Up,
        SwiButton::Right => Button::Right,
        SwiButton::Down => Button::Down,
        SwiButton::Left => Button::Left,
        SwiButton::ZL => Button::L2,
        SwiButton::ZR => Button::R2,
        SwiButton::L => Button::L1,
        SwiButton::R => Button::R1,
        SwiButton::Y => Button::Y,
        SwiButton::B => Button::B,
        SwiButton::A => Button::A,
        SwiButton::X => Button::X,
    }
}

/// The controller sent for slot `num` from the gamepad state: the slot
/// number, each Switch button pressed exactly when the gamepad button it
/// is sent from is pressed, and the sticks.
pub fn controller_to_send(num: u8, data: &Controller) -> (c: SwiController)
    ensures
        c.number == num,
        c.left_stick@ == seq![data.left_stick_x, data.left_stick_y],
        c.right_stick@ == seq![data.right_stick_x, data.right_stick_y],
        forall|s: SwiButton| #[trigger] c.buttons.has(s) == gamepad_of(s).pressed_in(data.buttons),
{
    let all = SwiButton::all();
    let mut pressed: u16 = 0;
    let mut k: u16 = 0;
    proof {
        assert forall|t: u16| t < 16 implies !#[trigger] bit16(pressed, t) by {
            lemma_bit16_zero(t);
        }
    }
    while k < 16
        invariant
            k <= 16,
            forall|q: int| 0 <= q < 16 ==> (#[trigger] all[q]).index() == q,
            forall|t: u16| t < 16 ==> #[trigger] bit16(pressed, t) == (t < k && gamepad_of(SwiButton::from_index(t)).pressed_in(data.buttons)),
        decreases 16 - k,
    {
        let s = all[k as usize];
        proof {
            lemma_swi_index_roundtrip(s);
        }
        let ghost before = pressed;
        if gamepad_button_of(s).is_pressed(data.buttons) {
            pressed = pressed | (1u16 << k);
        }
        proof {
            assert forall|t: u16| t < 16 implies #[trigger] bit16(pressed, t) == (t < k + 1 && gamepad_of(SwiButton::from_index(t)).pressed_in(data.buttons)) by {
                lemma_bit16_or(before, k, t);
            }
        }
        k = k + 1;
    }
    proof {
        assert forall|s: SwiButton| #[trigger] SwiButtons { pressed }.has(s) == gamepad_of(s).pressed_in(data.buttons) by {
            lemma_swi_index_roundtrip(s);
        }
    }
    SwiController {
        number: num,
        buttons: SwiButtons { pressed },
        left_stick: [data.left_stick_x, data.left_stick_y],
        right_stick: [data.right_stick_x, data.right_stick_y],
    }
}

/// A gamepad button survives being sent and received exactly when it has
/// a Switch counterpart: received buttons that were sent from `buttons`
/// are those of `buttons` that `swi_of` maps.
pub proof fn law_send_then_receive(buttons: u64, sent: SwiButtons, b: Button)
    requires
        forall|s: SwiButton| #[trigger] sent.has(s) == gamepad_of(s).pressed_in(buttons),
    ensures
        received_pressed(sent, b) == (swi_of(b) is Some && b.pressed_in(buttons)),
{
    match swi_of(b) {
        Some(s) => {
            assert(gamepad_of(s) == b);
            assert(sent.has(s) == b.pressed_in(buttons));
        },
        None => {},
    }
}

/// The Switch buttons sent for a gamepad state, bit by bit (bit `i` of the
/// gamepad field is the button of index `i`: A 0, B 1, X 2, Y 3, Up 4,
/// Down 5, Left 6, Right 7, Start 8, Select 9, L1 10, R1 11, L2 12, R2 13,
/// LStick 18, RStick 19): Minus from Select, the stick clicks, Plus from
/// Start, the d-pad, ZL/ZR from L2/R2, L/R from L1/R1, and each face
/// button from the gamepad button of the same name.
pub proof fn law_sent_button_layout(data: Controller, c: SwiController)
    requires
        forall|s: SwiButton| #[trigger] c.buttons.has(s) == gamepad_of(s).pressed_in(data.buttons),
    ensures
        bit16(c.buttons.pressed, 0) == bit64(data.buttons, 9),
        bit16(c.buttons.pressed, 1) == bit64(data.buttons, 18),
        bit16(c.buttons.pressed, 2) == bit64(data.buttons, 19),
        bit16(c.buttons.pressed, 3) == bit64(data.buttons, 8),
        bit16(c.buttons.pressed, 4) == bit64(data.buttons, 4),
        bit16(c.buttons.pressed, 5) == bit64(data.buttons, 7),
        bit16(c.buttons.pressed, 6) == bit64(data.buttons, 5),
        bit16(c.buttons.pressed, 7) == bit64(data.buttons, 6),
        bit16(c.buttons.pressed, 8) == bit64(data.buttons, 12),
        bit16(c.buttons.pressed, 9) == bit64(data.buttons, 13),
        bit16(c.buttons.pressed, 10) == bit64(data.buttons, 10),
        bit16(c.buttons.pressed, 11) == bit64(data.buttons, 11),
        bit16(c.buttons.pressed, 12) == bit64(data.buttons, 3),
        bit16(c.buttons.pressed, 13) == bit64(data.buttons, 1),
        bit16(c.buttons.pressed, 14) == bit64(data.buttons, 0),
        bit16(c.buttons.pressed, 15) == bit64(data.buttons, 2),
{
    assert(c.buttons.has(SwiButton::Minus) == gamepad_of(SwiButton::Minus).pressed_in(data.buttons));
    assert(c.buttons.has(SwiButton::LStick) == gamepad_of(SwiButton::LStick).pressed_in(data.buttons));
    assert(c.buttons.has(SwiButton::RStick) == gamepad_of(SwiButton::RStick).pressed_in(data.buttons));
    assert(c.buttons.has(SwiButton::Plus) == gamepad_of(SwiButton::Plus).pressed_in(data.buttons));
    assert(c.buttons.has(SwiButton::Up) == gamepad_of(SwiButton::Up).pressed_in(data.buttons));
    assert(c.buttons.has(SwiButton::Right) == gamepad_of(SwiButton::Right).pressed_in(data.buttons));
    assert(c.buttons.has(SwiButton::Down) == gamepad_of(SwiButton::Down).pressed_in(data.buttons));
    assert(c.buttons.has(SwiButton::Left) == gamepad_of(SwiButton::Left).pressed_in(data.buttons));
    assert(c.buttons.has(SwiButton::ZL) == gamepad_of(SwiButton::ZL).pressed_in(data.buttons));
    assert(c.buttons.has(SwiButton::ZR) == gamepad_of(SwiButton::ZR).pressed_in(data.buttons));
    assert(c.buttons.has(SwiButton::L) == gamepad_of(SwiButton::L).pressed_in(data.buttons));
    assert(c.buttons.has(SwiButton::R) == gamepad_of(SwiButton::R).pressed_in(data.buttons));
    assert(c.buttons.has(SwiButton::Y) == gamepad_of(SwiButton::Y).pressed_in(data.buttons));
    assert(c.buttons.has(SwiButton::B) == gamepad_of(SwiButton::B).pressed_in(data.buttons));
    assert(c.buttons.has(SwiButton::A) == gamepad_of(SwiButton::A).pressed_in(data.buttons));
    assert(c.buttons.has(SwiButton::X) == gamepad_of(SwiButton::X).pressed_in(data.buttons));
}

/// The gamepad buttons of a received Switch controller, bit by bit
/// (indices as for `law_sent_button_layout`): each gamepad button from the
/// Switch button it is sent as, and L3, R3, L4, R4, Home, Capture and the
/// bits beyond never pressed.
pub proof fn law_received_button_layout(from: SwiButtons, out: u64)
    requires
        forall|j: u64| j < 64 ==> #[trigger] bit64(out, j) == (j < 22 && received_pressed(from, Button::from_index(j))),
    ensures
        bit64(out, 0) == bit16(from.pressed, 14),
        bit64(out, 1) == bit16(from.pressed, 13),
        bit64(out, 2) == bit16(from.pressed, 15),
        bit64(out, 3) == bit16(from.pressed, 12),
        bit64(out, 4) == bit16(from.pressed, 4),
        bit64(out, 5) == bit16(from.pressed, 6),
        bit64(out, 6) == bit16(from.pressed, 7),
        bit64(out, 7) == bit16(from.pressed, 5),
        bit64(out, 8) == bit16(from.pressed, 3),
        bit64(out, 9) == bit16(from.pressed, 0),
        bit64(out, 10) == bit16(from.pressed, 10),
        bit64(out, 11) == bit16(from.pressed, 11),
        bit64(out, 12) == bit16(from.pressed, 8),
        bit64(out, 13) == bit16(from.pressed, 9),
        bit64(out, 18) == bit16(from.pressed, 1),
        bit64(out, 19) == bit16(from.pressed, 2),
        !bit64(out, 14) && !bit64(out, 15) && !bit64(out, 16) && !bit64(out, 17) && !bit64(out, 20) && !bit64(out, 21),
        forall|j: u64| 22 <= j < 64 ==> !#[trigger] bit64(out, j),
{
    assert(bit64(out, 0) == received_pressed(from, Button::A));
    assert(bit64(out, 1) == received_pressed(from, Button::B));
    assert(bit64(out, 2) == received_pressed(from, Button::X));
    assert(bit64(out, 3) == received_pressed(from, Button::Y));
    assert(bit64(out, 4) == received_pressed(from, Button::Up));
    assert(bit64(out, 5) == received_pressed(from, Button::Down));
    assert(bit64(out, 6) == received_pressed(from, Button::Left));
    assert(bit64(out, 7) == received_pressed(from, Button::Right));
    assert(bit64(out, 8) == received_pressed(from, Button::Start));
    assert(bit64(out, 9) == received_pressed(from, Button::Select));
    assert(bit64(out, 10) == received_pressed(from, Button::L1));
    assert(bit64(out, 11) == received_pressed(from, Button::R1));
    assert(bit64(out, 12) == received_pressed(from, Button::L2));
    assert(bit64(out, 13) == received_pressed(from, Button::R2));
    assert(bit64(out, 14) == received_pressed(from, Button::L3));
    assert(bit64(out, 15) == received_pressed(from, Button::R3));
    assert(bit64(out, 16) == received_pressed(from, Button::L4));
    assert(bit64(out, 17) == received_pressed(from, Button::R4));
    assert(bit64(out, 18) == received_pressed(from, Button::LStick));
    assert(bit64(out, 19) == received_pressed(from, Button::RStick));
    assert(bit64(out, 20) == received_pressed(from, Button::Home));
    assert(bit64(out, 21) == received_pressed(from, Button::Capture));
}

/// How many slots a packet announces: one more than the highest slot that
/// has a device, or none.
pub fn num_controllers(present: &[bool; 8]) -> (n: usize)
    ensures
        n <= 8,
        n > 0 ==> present[n - 1],
        forall|k: int| n <= k < 8 ==> !present[k],
{
    let mut i: usize = 8;
    while i > 0
        invariant
            i <= 8,
            forall|k: int| i <= k < 8 ==> !present[k],
        decreases i,
    {
        if present[i - 1] {
            return i;
        }
        i = i - 1;
    }
    0
}

/// The display name of the controller received in slot `slot`.
pub fn controller_name(slot: usize) -> (s: String)
    ensures
        s@ == "Swi Controller "@ + digit_chars(slot as nat, 10),
{
    prefixed_number("Swi Controller ", slot as u128)
}

} // verus!
