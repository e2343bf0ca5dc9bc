//! Linux uinput joysticks: the input events written for a gamepad state.
use vstd::prelude::*;
use crate::component::controller::{Button, Controller};
use crate::bits::bit64;

verus! {

/// Event types and codes of the Linux input subsystem.
pub const EV_SYN: u16 = 0x00;
pub const EV_KEY: u16 = 0x01;
pub const EV_ABS: u16 = 0x03;
pub const SYN_REPORT: u16 = 0;
pub const BTN_SOUTH: u16 = 0x130;
pub const BTN_EAST: u16 = 0x131;
pub const BTN_NORTH: u16 = 0x133;
pub const BTN_WEST: u16 = 0x134;
pub const BTN_TL: u16 = 0x136;
pub const BTN_TR: u16 = 0x137;
pub const BTN_TL2: u16 = 0x138;
pub const BTN_TR2: u16 = 0x139;
pub const BTN_SELECT: u16 = 0x13a;
pub const BTN_START: u16 = 0x13b;
pub const BTN_MODE: u16 = 0x13c;
pub const BTN_THUMBL: u16 = 0x13d;
pub const BTN_THUMBR: u16 = 0x13e;
pub const BTN_DPAD_UP: u16 = 0x220;
pub const BTN_DPAD_DOWN: u16 = 0x221;
pub const BTN_DPAD_LEFT: u16 = 0x222;
pub const BTN_DPAD_RIGHT: u16 = 0x223;
pub const ABS_X: u16 = 0x00;
pub const ABS_Y: u16 = 0x01;
pub const ABS_Z: u16 = 0x02;
pub const ABS_RX: u16 = 0x03;
pub const ABS_RY: u16 = 0x04;
pub const ABS_RZ: u16 = 0x05;

/// An input event, without its time stamp.
#[derive(Copy, Clone, Debug, PartialEq, Eq, Structural)]
pub struct InputEvent {
    pub kind: u16,
    pub code: u16,
    pub value: i32,
}

/// The key of the joystick that each reported gamepad button presses, in
/// the order in which the events are written.
pub open spec fn key_map() -> Seq<(Button, u16)> {
    seq![
        (Button::A, BTN_SOUTH),
        (Button::B, BTN_EAST),
        (Button::X, BTN_WEST),
        (Button::Y, BTN_NORTH),
        (Button::Up, BTN_DPAD_UP),
        (Button::Down, BTN_DPAD_DOWN),
        (Button::Left, BTN_DPAD_LEFT),
        (Button::Right, BTN_DPAD_RIGHT),
        (Button::Start, BTN_START),
        (Button::Select, BTN_SELECT),
        (Button::L1, BTN_TL),
        (Button::R1, BTN_TR),
        (Button::L2, BTN_TL2),
        (Button::R2, BTN_TR2),
        (Button::LStick, BTN_THUMBL),
        (Button::RStick, BTN_THUMBR),
        (Button::Home, BTN_MODE),
    ]
}

/// The key event of a button: 1 while pressed, 0 otherwise.
pub open spec fn key_event(code: u16, pressed: bool) -> InputEvent {
    InputEvent { kind: EV_KEY, code, value: if pressed { 1 } else { 0 } }
}

/// The absolute-axis event of an axis.
pub open spec fn abs_event(code: u16, value: int) -> InputEvent {
    InputEvent { kind: EV_ABS, code, value: value as i32 }
}

/// The key events written for a gamepad state, one by one, with the Linux
/// key codes as numbers (bit `i` of the gamepad field is the button of
/// index `i`: A 0, B 1, X 2, Y 3, Up 4, Down 5, Left 6, Right 7, Start 8,
/// Select 9, L1 10, R1 11, L2 12, R2 13, LStick 18, RStick 19, Home 20):
/// A as BTN_SOUTH (0x130), B as BTN_EAST (0x131), X as BTN_WEST (0x134),
/// Y as BTN_NORTH (0x133), the d-pad as BTN_DPAD_UP to BTN_DPAD_RIGHT
/// (0x220 to 0x223), Start (0x13b), Select (0x13a), L1/R1 as BTN_TL/BTN_TR
/// (0x136, 0x137), L2/R2 as BTN_TL2/BTN_TR2 (0x138, 0x139), the stick
/// clicks as BTN_THUMBL/BTN_THUMBR (0x13d, 0x13e) and Home as BTN_MODE
/// (0x13c); each of kind EV_KEY (1) with value 1 while pressed, else 0.
pub proof fn law_uinput_key_events(data: Controller, events: Seq<InputEvent>)
    requires
        events.len() == 24,
        forall|i: int| 0 <= i < 17 ==> #[trigger] events[i] == key_event(key_map()[i].1, key_map()[i].0.pressed_in(data.buttons)),
    ensures
        events[0] == (InputEvent { kind: 1, code: 0x130, value: if bit64(data.buttons, 0) { 1 } else { 0 } }),
        events[1] == (InputEvent { kind: 1, code: 0x131, value: if bit64(data.buttons, 1) { 1 } else { 0 } }),
        events[2] == (InputEvent { kind: 1, code: 0x134, value: if bit64(data.buttons, 2) { 1 } else { 0 } }),
        events[3] == (InputEvent { kind: 1, code: 0x133, value: if bit64(data.buttons, 3) { 1 } else { 0 } }),
        events[4] == (InputEvent { kind: 1, code: 0x220, value: if bit64(data.buttons, 4) { 1 } else { 0 } }),
        events[5] == (InputEvent { kind: 1, code: 0x221, value: if bit64(data.buttons, 5) { 1 } else { 0 } }),
        events[6] == (InputEvent { kind: 1, code: 0x222, value: if bit64(data.buttons, 6) { 1 } else { 0 } }),
        events[7] == (InputEvent { kind: 1, code: 0x223, value: if bit64(data.buttons, 7) { 1 } else { 0 } }),
        events[8] == (InputEvent { kind: 1, code: 0x13b, value: if bit64(data.buttons, 8) { 1 } else { 0 } }),
        events[9] == (InputEvent { kind: 1, code: 0x13a, value: if bit64(data.buttons, 9) { 1 } else { 0 } }),
        events[10] == (InputEvent { kind: 1, code: 0x136, value: if bit64(data.buttons, 10) { 1 } else { 0 } }),
        events[11] == (InputEvent { kind: 1, code: 0x137, value: if bit64(data.buttons, 11) { 1 } else { 0 } }),
        events[12] == (InputEvent { kind: 1, code: 0x138, value: if bit64(data.buttons, 12) { 1 } else { 0 } }),
        events[13] == (InputEvent { kind: 1, code: 0x139, value: if bit64(data.buttons, 13) { 1 } else { 0 } }),
        events[14] == (InputEvent { kind: 1, code: 0x13d, value: if bit64(data.buttons, 18) { 1 } else { 0 } }),
        events[15] == (InputEvent { kind: 1, code: 0x13e, value: if bit64(data.buttons, 19) { 1 } else { 0 } }),
        events[16] == (InputEvent { kind: 1, code: 0x13c, value: if bit64(data.buttons, 20) { 1 } else { 0 } }),
{
    assert(events[0] == key_event(key_map()[0].1, key_map()[0].0.pressed_in(data.buttons)));
    assert(events[1] == key_event(key_map()[1].1, key_map()[1].0.pressed_in(data.buttons)));
    assert(events[2] == key_event(key_map()[2].1, key_map()[2].0.pressed_in(data.buttons)));
    assert(events[3] == key_event(key_map()[3].1, key_map()[3].0.pressed_in(data.buttons)));
    assert(events[4] == key_event(key_map()[4].1, key_map()[4].0.pressed_in(data.buttons)));
    assert(events[5] == key_event(key_map()[5].1, key_map()[5].0.pressed_in(data.buttons)));
    assert(events[6] == key_event(key_map()[6].1, key_map()[6].0.pressed_in(data.buttons)));
    assert(events[7] == key_event(key_map()[7].1, key_map()[7].0.pressed_in(data.buttons)));
    assert(events[8] == key_event(key_map()[8].1, key_map()[8].0.pressed_in(data.buttons)));
    assert(events[9] == key_event(key_map()[9].1, key_map()[9].0.pressed_in(data.buttons)));
    assert(events[10] == key_event(key_map()[10].1, key_map()[10].0.pressed_in(data.buttons)));
    assert(events[11] == key_event(key_map()[11].1, key_map()[11].0.pressed_in(data.buttons)));
    assert(events[12] == key_event(key_map()[12].1, key_map()[12].0.pressed_in(data.buttons)));
    assert(events[13] == key_event(key_map()[13].1, key_map()[13].0.pressed_in(data.buttons)));
    assert(events[14] == key_event(key_map()[14].1, key_map()[14].0.pressed_in(data.buttons)));
    assert(events[15] == key_event(key_map()[15].1, key_map()[15].0.pressed_in(data.buttons)));
    assert(events[16] == key_event(key_map()[16].1, key_map()[16].0.pressed_in(data.buttons)));
}

/// The events written for a gamepad state, in order: one key event per
/// entry of `key_map`; the axes X and Y of the left stick and RX and RY of
/// the right stick, the vertical ones flipped (255 - y); Z and RZ from the
/// L2 and R2 analogs; then a report.
pub fn joystick_events(data: &Controller) -> (events: Vec<InputEvent>)
    ensures
        events@.len() == 24,
        forall|i: int| 0 <= i < 17 ==> #[trigger] events@[i] == key_event(key_map()[i].1, key_map()[i].0.pressed_in(data.buttons)),
        events@[17] == abs_event(ABS_X, data.left_stick_x as int),
        events@[18] == abs_event(ABS_Y, 255 - data.left_stick_y),
        events@[19] == abs_event(ABS_RX, data.right_stick_x as int),
        events@[20] == abs_event(ABS_RY, 255 - data.right_stick_y),
        events@[21] == abs_event(ABS_Z, data.l2_analog as int),
        events@[22] == abs_event(ABS_RZ, data.r2_analog as int),
        events@[23] == (InputEvent { kind: EV_SYN, code: SYN_REPORT, value: 0 }),
{
    let keys = [
        (Button::A, BTN_SOUTH),
        (Button::B, BTN_EAST),
        (Button::X, BTN_WEST),
        (Button::Y, BTN_NORTH),
        (Button::Up, BTN_DPAD_UP),
        (Button::Down, BTN_DPAD_DOWN),
        (Button::Left, BTN_DPAD_LEFT),
        (Button::Right, BTN_DPAD_RIGHT),
        (Button::Start, BTN_START),
        (Button::Select, BTN_SELECT),
        (Button::L1, BTN_TL),
        (Button::R1, BTN_TR),
        (Button::L2, BTN_TL2),
        (Button::R2, BTN_TR2),
        (Button::LStick, BTN_THUMBL),
        (Button::RStick, BTN_THUMBR),
        (Button::Home, BTN_MODE),
    ];
    assert(keys@ =~= key_map());
    let mut events: Vec<InputEvent> = Vec::new();
    let mut i: usize = 0;
    while i < 17
        invariant
            i <= 17,
            keys@ == key_map(),
            events@.len() == i,
            forall|k: int| 0 <= k < i ==> #[trigger] events@[k] == key_event(key_map()[k].1, key_map()[k].0.pressed_in(data.buttons)),
        decreases 17 - i,
    {
        let (b, code) = keys[i];
        let value: i32 = if b.is_pressed(data.buttons) { 1 } else { 0 };
        events.push(InputEvent { kind: EV_KEY, code, value });
        i = i + 1;
    }
    events.push(InputEvent { kind: EV_ABS, code: ABS_X, value: data.left_stick_x as i32 });
    events.push(InputEvent { kind: EV_ABS, code: ABS_Y, value: (255 - data.left_stick_y) as i32 });
    events.push(InputEvent { kind: EV_ABS, code: ABS_RX, value: data.right_stick_x as i32 });
    events.push(InputEvent { kind: EV_ABS, code: ABS_RY, value: (255 - data.right_stick_y) as i32 });
    events.push(InputEvent { kind: EV_ABS, code: ABS_Z, value: data.l2_analog as i32 });
    events.push(InputEvent { kind: EV_ABS, code: ABS_RZ, value: data.r2_analog as i32 });
    events.push(InputEvent { kind: EV_SYN, code: SYN_REPORT, value: 0 });
    events
}

} // verus!
