//! GameCube controller adaptor: four controller slots behind one USB
//! device.
use vstd::prelude::*;
use crate::bits::bit64;
use crate::text::{digit_chars, push_digits, with_number};
use crate::component::controller::{Analog, Button, ControllerInfo, pack_buttons};

verus! {

/// A button of a GameCube controller.
#[derive(Copy, Clone, Debug, PartialEq, Eq, Structural)]
pub enum GcButton {
    Start,
    Z,
    R,
    L,
    A,
    B,
    X,
    Y,
    Left,
    Right,
    Down,
    Up,
}

impl GcButton {
    /// The button's bit in `GcButtons::pressed`.
    pub open spec fn index(self) -> u16 {
        match self {
            GcButton::Start => 0,
            GcButton::Z => 1,
            GcButton::R => 2,
            GcButton::L => 3,
            GcButton::A => 4,
            GcButton::B => 5,
            GcButton::X => 6,
            GcButton::Y => 7,
            GcButton::Left => 8,
            GcButton::Right => 9,
            GcButton::Down => 10,
            GcButton::Up => 11,
        }
    }

    /// The button's bit in `GcButtons::pressed`.
    pub fn bit(self) -> (b: u16)
        ensures
            b == self.index(),
    {
        match self {
            GcButton::Start => 0,
            GcButton::Z => 1,
            GcButton::R => 2,
            GcButton::L => 3,
            GcButton::A => 4,
            GcButton::B => 5,
            GcButton::X => 6,
            GcButton::Y => 7,
            GcButton::Left => 8,
            GcButton::Right => 9,
            GcButton::Down => 10,
            GcButton::Up => 11,
        }
    }
}

/// The pressed buttons of a GameCube controller, one bit per `GcButton`.
#[derive(Copy, Clone, Debug, Default, PartialEq, Eq, Structural)]
pub struct GcButtons {
    pub pressed: u16,
}

impl GcButtons {
    /// The button is pressed.
    pub open spec fn has(self, b: GcButton) -> bool {
        self.pressed & (1u16 << b.index()) != 0
    }

    /// Whether the button is pressed.
    pub fn is_pressed(&self, b: GcButton) -> (r: bool)
        ensures
            r == self.has(b),
    {
        self.pressed & (1u16 << b.bit()) != 0
    }
}

/// The GameCube button that drives each gamepad button, if any: Z drives
/// R1, R and L the R2 and L2 triggers, the others their namesakes.
pub open spec fn gc_source(b: Button) -> Option<GcButton> {
    match b {
        Button::Start => Some(GcButton::Start),
        Button::R1 => Some(GcButton::Z),
        Button::R2 => Some(GcButton::R),
        Button::L2 => Some(GcButton::L),
        Button::A => Some(GcButton::A),
        Button::B => Some(GcButton::B),
        Button::X => Some(GcButton::X),
        Button::Y => Some(GcButton::Y),
        Button::Left => Some(GcButton::Left),
        Button::Right => Some(GcButton::Right),
        Button::Down => Some(GcButton::Down),
        Button::Up => Some(GcButton::Up),
        _ => None,
    }
}

/// The gamepad button is pressed on the GameCube controller.
pub open spec fn gc_pressed(buttons: GcButtons, b: Button) -> bool {
    match gc_source(b) {
        Some(g) => buttons.has(g),
        None => false,
    }
}

/// Whether the gamepad button is pressed on the GameCube controller.
pub fn gc_is_pressed(buttons: &GcButtons, b: Button) -> (r: bool)
    ensures
        r == gc_pressed(*buttons, b),
{
    match b {
        Button::Start => buttons.is_pressed(GcButton::Start),
        Button::R1 => buttons.is_pressed(GcButton::Z),
        Button::R2 => buttons.is_pressed(GcButton::R),
        Button::L2 => buttons.is_pressed(GcButton::L),
        Button::A => buttons.is_pressed(GcButton::A),
        Button::B => buttons.is_pressed(GcButton::B),
        Button::X => buttons.is_pressed(GcButton::X),
        Button::Y => buttons.is_pressed(GcButton::Y),
        Button::Left => buttons.is_pressed(GcButton::Left),
        Button::Right => buttons.is_pressed(GcButton::Right),
        Button::Down => buttons.is_pressed(GcButton::Down),
        Button::Up => buttons.is_pressed(GcButton::Up),
        _ => false,
    }
}

/// The gamepad button field of a GameCube controller's buttons.
pub fn convert_buttons(buttons: GcButtons) -> (out: u64)
    ensures
        forall|j: u64| j < 64 ==> #[trigger] bit64(out, j) == (j < 22 && gc_pressed(buttons, Button::from_index(j))),
{
    let all = Button::buttons();
    let mut flags = [false; 22];
    let mut i: usize = 0;
    while i < 22
        invariant
            i <= 22,
            forall|k: int| 0 <= k < 22 ==> (#[trigger] all[k]).index() == k,
            forall|k: int| 0 <= k < i ==> #[trigger] flags[k] == gc_pressed(buttons, Button::from_index(k as u64)),
        decreases 22 - i,
    {
        let b = all[i];
        proof {
            crate::component::controller::lemma_button_index_roundtrip(b);
        }
        flags[i] = gc_is_pressed(&buttons, b);
        i = i + 1;
    }
    pack_buttons(&flags)
}

/// The gamepad buttons of a GameCube controller, bit by bit
/// (bit `i` of the gamepad field is the button of index `i`: A 0, B 1, X 2,
/// Y 3, Up 4, Down 5, Left 6, Right 7, Start 8, Select 9, L1 10, R1 11,
/// L2 12, R2 13, L3 14, R3 15, L4 16, R4 17, LStick 18, RStick 19, Home
/// 20, Capture 21): A, B, X, Y, the d-pad and Start from their
/// namesakes, R1 from Z, L2 from L and R2 from R; Select, L1 and the
/// buttons from L3 on are never pressed.
pub proof fn law_gc_button_layout(buttons: GcButtons, out: u64)
    requires
        forall|j: u64| j < 64 ==> #[trigger] bit64(out, j) == (j < 22 && gc_pressed(buttons, Button::from_index(j))),
    ensures
        bit64(out, 0) == (buttons.has(GcButton::A)),
        bit64(out, 1) == (buttons.has(GcButton::B)),
        bit64(out, 2) == (buttons.has(GcButton::X)),
        bit64(out, 3) == (buttons.has(GcButton::Y)),
        bit64(out, 4) == (buttons.has(GcButton::Up)),
        bit64(out, 5) == (buttons.has(GcButton::Down)),
        bit64(out, 6) == (buttons.has(GcButton::Left)),
        bit64(out, 7) == (buttons.has(GcButton::Right)),
        bit64(out, 8) == (buttons.has(GcButton::Start)),
        !bit64(out, 9),
        !bit64(out, 10),
        bit64(out, 11) == (buttons.has(GcButton::Z)),
        bit64(out, 12) == (buttons.has(GcButton::L)),
        bit64(out, 13) == (buttons.has(GcButton::R)),
        !bit64(out, 14),
        !bit64(out, 15),
        !bit64(out, 16),
        !bit64(out, 17),
        !bit64(out, 18),
        !bit64(out, 19),
        !bit64(out, 20),
        !bit64(out, 21),
        forall|j: u64| 22 <= j < 64 ==> !#[trigger] bit64(out, j),
{
    assert(bit64(out, 0) == gc_pressed(buttons, Button::A));
    assert(bit64(out, 1) == gc_pressed(buttons, Button::B));
    assert(bit64(out, 2) == gc_pressed(buttons, Button::X));
    assert(bit64(out, 3) == gc_pressed(buttons, Button::Y));
    assert(bit64(out, 4) == gc_pressed(buttons, Button::Up));
    assert(bit64(out, 5) == gc_pressed(buttons, Button::Down));
    assert(bit64(out, 6) == gc_pressed(buttons, Button::Left));
    assert(bit64(out, 7) == gc_pressed(buttons, Button::Right));
    assert(bit64(out, 8) == gc_pressed(buttons, Button::Start));
    assert(bit64(out, 9) == gc_pressed(buttons, Button::Select));
    assert(bit64(out, 10) == gc_pressed(buttons, Button::L1));
    assert(bit64(out, 11) == gc_pressed(buttons, Button::R1));
    assert(bit64(out, 12) == gc_pressed(buttons, Button::L2));
    assert(bit64(out, 13) == gc_pressed(buttons, Button::R2));
    assert(bit64(out, 14) == gc_pressed(buttons, Button::L3));
    assert(bit64(out, 15) == gc_pressed(buttons, Button::R3));
    assert(bit64(out, 16) == gc_pressed(buttons, Button::L4));
    assert(bit64(out, 17) == gc_pressed(buttons, Button::R4));
    assert(bit64(out, 18) == gc_pressed(buttons, Button::LStick));
    assert(bit64(out, 19) == gc_pressed(buttons, Button::RStick));
    assert(bit64(out, 20) == gc_pressed(buttons, Button::Home));
    assert(bit64(out, 21) == gc_pressed(buttons, Button::Capture));
}

/// Description of a slot's controller. Its button field is built by
/// or-ing the buttons' bit positions (not their masks), which gives 15:
/// only A, B, X and Y.
pub fn gc_controller_info() -> (i: ControllerInfo)
    ensures
        i == (ControllerInfo { buttons: 15, analogs: 0 }.added(Analog::LStick).added(Analog::RStick).added(Analog::L2).added(Analog::R2)),
{
    let buttons = Button::A | Button::B | Button::X | Button::Y | Button::Up | Button::Down | Button::Left | Button::Right | Button::Start | Button::R1 | Button::L2 | Button::R2;
    assert(buttons == 15) by (bit_vector)
        requires
            buttons == (((((((((((0u64 | 1u64) | 2u64) | 3u64) | 4u64) | 5u64) | 6u64) | 7u64) | 8u64) | 11u64) | 12u64) | 13u64),
    ;
    ControllerInfo { buttons, analogs: 0 }.with_lstick().with_rstick().with_l2_analog().with_r2_analog()
}

/// What the driver does with a slot after a report.
#[derive(Copy, Clone, Debug, PartialEq, Eq, Structural)]
pub enum SlotAction {
    /// The slot's device is dropped.
    Remove(usize),
    /// A device is created for the slot.
    Add(usize),
    /// The slot's device takes the slot's state.
    Update(usize),
}

/// The actions for slots `i..4`, given which slots have a device and which
/// report an active controller. A slot with a device and a controller is
/// updated; one with a controller but no device gets one and is updated.
/// The first slot whose device must go is removed and ends the round, as
/// does the first slot with neither.
pub open spec fn slot_actions_from(has_device: [bool; 4], active: [bool; 4], i: int) -> Seq<SlotAction>
    decreases 4 - i,
{
    if i >= 4 || i < 0 {
        seq![]
    } else if has_device[i] && !active[i] {
        seq![SlotAction::Remove(i as usize)]
    } else if has_device[i] {
        seq![SlotAction::Update(i as usize)] + slot_actions_from(has_device, active, i + 1)
    } else if active[i] {
        seq![SlotAction::Add(i as usize), SlotAction::Update(i as usize)] + slot_actions_from(has_device, active, i + 1)
    } else {
        seq![]
    }
}

/// The actions to take on the four slots after a report, in order.
pub fn slot_actions(has_device: [bool; 4], active: [bool; 4]) -> (acts: Vec<SlotAction>)
    ensures
        acts@ == slot_actions_from(has_device, active, 0),
{
    let mut acts: Vec<SlotAction> = Vec::new();
    let mut i: usize = 0;
    while i < 4
        invariant
            i <= 4,
            slot_actions_from(has_device, active, 0) == acts@ + slot_actions_from(has_device, active, i as int),
        decreases 4 - i,
    {
        if has_device[i] && !active[i] {
            acts.push(SlotAction::Remove(i));
            assert(slot_actions_from(has_device, active, 0) == acts@);
            return acts;
        } else if has_device[i] {
            acts.push(SlotAction::Update(i));
        } else if active[i] {
            acts.push(SlotAction::Add(i));
            acts.push(SlotAction::Update(i));
        } else {
            assert(slot_actions_from(has_device, active, 0) =~= acts@);
            return acts;
        }
        assert(slot_actions_from(has_device, active, 0) =~= acts@ + slot_actions_from(has_device, active, i + 1));
        i = i + 1;
    }
    assert(slot_actions_from(has_device, active, 0) =~= acts@);
    acts
}

/// The stable id of slot `slot` of the adaptor with serial number
/// `serial`.
pub fn slot_id(serial: &str, slot: usize) -> (s: String)
    ensures
        s@ == "gc_adaptor/"@ + serial@ + "/"@ + digit_chars(slot as nat, 10),
{
    let mut s = String::new();
    s.append("gc_adaptor/");
    s.append(serial);
    s.append("/");
    push_digits(&mut s, slot as u128, 10);
    s
}

/// The display name of slot `slot` of adaptor `device_id`: slots are
/// numbered from 1.
pub fn slot_name(device_id: u64, slot: usize) -> (s: String)
    requires
        slot < usize::MAX,
    ensures
        s@ == "Gamecube Adaptor "@ + digit_chars(device_id as nat, 10) + " Slot "@ + digit_chars((slot + 1) as nat, 10),
{
    let mut s = with_number("Gamecube Adaptor ", device_id as u128, " Slot ");
    push_digits(&mut s, (slot + 1) as u128, 10);
    s
}

} // verus!
