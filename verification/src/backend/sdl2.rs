//! SDL2 game controllers and raw joysticks: button mapping, hat
//! decoding and the layout of a raw joystick's button bank.
use vstd::prelude::*;
use crate::bits::{bit64, lemma_bit64_write, lemma_bit64_or, lemma_bit64_zero};
use crate::component::analogs::AnalogsInfo;
use crate::component::buttons::ButtonsInfo;
use crate::component::controller::{Analog, Button, ControllerInfo, mask_of, buttons_mask};
use crate::text::{digit_chars, prefixed_number};

verus! {

/// A game-controller button as SDL2 names it.
#[derive(Copy, Clone, Debug, PartialEq, Eq, Structural)]
pub enum SdlButton {
    A,
    B,
    X,
    Y,
    Back,
    Guide,
    Start,
    LeftStick,
    RightStick,
    LeftShoulder,
    RightShoulder,
    DPadUp,
    DPadDown,
    DPadLeft,
    DPadRight,
    Misc1,
    Paddle1,
    Paddle2,
    Paddle3,
    Paddle4,
    Touchpad,
}

/// The gamepad button of an SDL2 button, if it has one.
pub open spec fn converted(button: SdlButton) -> Option<Button> {
    match button {
        SdlButton::A => Some(Button::A),
        SdlButton::B => Some(Button::B),
        SdlButton::X => Some(Button::X),
        SdlButton::Y => Some(Button::Y),
        SdlButton::Back => Some(Button::Select),
        SdlButton::Guide => Some(Button::Home),
        SdlButton::Start => Some(Button::Start),
        SdlButton::LeftStick => Some(Button::LStick),
        SdlButton::RightStick => Some(Button::RStick),
        SdlButton::LeftShoulder => Some(Button::L1),
        SdlButton::RightShoulder => Some(Button::R1),
        SdlButton::DPadUp => Some(Button::Up),
        SdlButton::DPadDown => Some(Button::Down),
        SdlButton::DPadLeft => Some(Button::Left),
        SdlButton::DPadRight => Some(Button::Right),
        _ => None,
    }
}

/// The gamepad button of an SDL2 button, if it has one.
pub fn convert_button(button: SdlButton) -> (b: Option<Button>)
    ensures
        b == converted(button),
{
    match button {
        SdlButton::A => Some(Button::A),
        SdlButton::B => Some(Button::B),
        SdlButton::X => Some(Button::X),
        SdlButton::Y => Some(Button::Y),
        SdlButton::Back => Some(Button::Select),
        SdlButton::Guide => Some(Button::Home),
        SdlButton::Start => Some(Button::Start),
        SdlButton::LeftStick => Some(Button::LStick),
        SdlButton::RightStick => Some(Button::RStick),
        SdlButton::LeftShoulder => Some(Button::L1),
        SdlButton::RightShoulder => Some(Button::R1),
        SdlButton::DPadUp => Some(Button::Up),
        SdlButton::DPadDown => Some(Button::Down),
        SdlButton::DPadLeft => Some(Button::Left),
        SdlButton::DPadRight => Some(Button::Right),
        _ => None,
    }
}

/// Applies a game-controller button event: a press sets the gamepad
/// button, a release clears it, and a button without counterpart changes
/// nothing.
pub fn apply_button_event(buttons: &mut u64, button: SdlButton, down: bool)
    ensures
        forall|j: u64| j < 64 ==> #[trigger] bit64(*final(buttons), j) == (match converted(button) {
            Some(b) => if j == b.index() { down } else { bit64(*old(buttons), j) },
            None => bit64(*old(buttons), j),
        }),
{
    match convert_button(button) {
        Some(b) => {
            let x = *buttons;
            let v: u64 = if down { 1 } else { 0 };
            *buttons = x & !(1u64 << b.bit()) | (v << b.bit());
            proof {
                assert forall|j: u64| j < 64 implies #[trigger] bit64(*buttons, j) == (if j == b.index() { down } else { bit64(x, j) }) by {
                    lemma_bit64_write(x, b.index(), down, j);
                }
            }
        },
        None => {},
    }
}

/// The position of an SDL2 hat.
#[derive(Copy, Clone, Debug, PartialEq, Eq, Structural)]
pub enum HatState {
    Centered,
    Up,
    Right,
    Down,
    Left,
    RightUp,
    RightDown,
    LeftUp,
    LeftDown,
}

/// The hat points up (up, up-left or up-right).
pub open spec fn hat_up(s: HatState) -> bool {
    s == HatState::Up || s == HatState::LeftUp || s == HatState::RightUp
}

/// The hat points down.
pub open spec fn hat_down(s: HatState) -> bool {
    s == HatState::Down || s == HatState::LeftDown || s == HatState::RightDown
}

/// The hat points left.
pub open spec fn hat_left(s: HatState) -> bool {
    s == HatState::Left || s == HatState::LeftDown || s == HatState::LeftUp
}

/// The hat points right.
pub open spec fn hat_right(s: HatState) -> bool {
    s == HatState::Right || s == HatState::RightDown || s == HatState::RightUp
}

/// How SDL2 events map onto the gamepad: each game-controller button
/// presses its namesake, Back is Select, Guide is Home, the shoulders are
/// L1/R1 and the stick buttons the stick clicks, while the misc, paddle and
/// touchpad buttons have no counterpart; a hat points up in its up, up-left
/// and up-right positions, down in down, down-left and down-right, and
/// likewise left and right.
pub proof fn law_sdl2_mapping()
    ensures
        converted(SdlButton::A) == Some(Button::A),
        converted(SdlButton::B) == Some(Button::B),
        converted(SdlButton::X) == Some(Button::X),
        converted(SdlButton::Y) == Some(Button::Y),
        converted(SdlButton::Back) == Some(Button::Select),
        converted(SdlButton::Guide) == Some(Button::Home),
        converted(SdlButton::Start) == Some(Button::Start),
        converted(SdlButton::LeftStick) == Some(Button::LStick),
        converted(SdlButton::RightStick) == Some(Button::RStick),
        converted(SdlButton::LeftShoulder) == Some(Button::L1),
        converted(SdlButton::RightShoulder) == Some(Button::R1),
        converted(SdlButton::DPadUp) == Some(Button::Up),
        converted(SdlButton::DPadDown) == Some(Button::Down),
        converted(SdlButton::DPadLeft) == Some(Button::Left),
        converted(SdlButton::DPadRight) == Some(Button::Right),
        converted(SdlButton::Misc1) == None::<Button>,
        converted(SdlButton::Paddle1) == None::<Button>,
        converted(SdlButton::Paddle2) == None::<Button>,
        converted(SdlButton::Paddle3) == None::<Button>,
        converted(SdlButton::Paddle4) == None::<Button>,
        converted(SdlButton::Touchpad) == None::<Button>,
        hat_up(HatState::Centered) == false && hat_down(HatState::Centered) == false && hat_left(HatState::Centered) == false && hat_right(HatState::Centered) == false,
        hat_up(HatState::Up) == true && hat_down(HatState::Up) == false && hat_left(HatState::Up) == false && hat_right(HatState::Up) == false,
        hat_up(HatState::Right) == false && hat_down(HatState::Right) == false && hat_left(HatState::Right) == false && hat_right(HatState::Right) == true,
        hat_up(HatState::Down) == false && hat_down(HatState::Down) == true && hat_left(HatState::Down) == false && hat_right(HatState::Down) == false,
        hat_up(HatState::Left) == false && hat_down(HatState::Left) == false && hat_left(HatState::Left) == true && hat_right(HatState::Left) == false,
        hat_up(HatState::RightUp) == true && hat_down(HatState::RightUp) == false && hat_left(HatState::RightUp) == false && hat_right(HatState::RightUp) == true,
        hat_up(HatState::RightDown) == false && hat_down(HatState::RightDown) == true && hat_left(HatState::RightDown) == false && hat_right(HatState::RightDown) == true,
        hat_up(HatState::LeftUp) == true && hat_down(HatState::LeftUp) == false && hat_left(HatState::LeftUp) == true && hat_right(HatState::LeftUp) == false,
        hat_up(HatState::LeftDown) == false && hat_down(HatState::LeftDown) == true && hat_left(HatState::LeftDown) == true && hat_right(HatState::LeftDown) == false,
{
}

/// The button bank of a raw joystick: its real buttons first, then four
/// buttons (up, down, left, right) per hat.
#[derive(Copy, Clone, Debug)]
pub struct JoystickButtons {
    pub buttons: u64,
    pub num_real_buttons: u8,
}

impl JoystickButtons {
    /// Button `button` is written `to`; buttons at or beyond 64 do not
    /// exist and change nothing.
    pub open spec fn written(buttons: u64, button: u8, to: bool, j: u64) -> bool {
        if button < 64 && j == button {
            to
        } else {
            bit64(buttons, j)
        }
    }

    /// Presses (`to`) or releases button `button`; a button at or beyond
    /// 64 is ignored.
    pub fn set_button(&mut self, button: u8, to: bool)
        ensures
            final(self).num_real_buttons == old(self).num_real_buttons,
            forall|j: u64| j < 64 ==> #[trigger] bit64(final(self).buttons, j) == Self::written(old(self).buttons, button, to, j),
    {
        if button >= 64 {
            return;
        }
        let x = self.buttons;
        if to {
            self.buttons = x | (1u64 << button);
            proof {
                assert forall|j: u64| j < 64 implies #[trigger] bit64(self.buttons, j) == Self::written(x, button, to, j) by {
                    lemma_bit64_or(x, button as u64, j);
                }
            }
        } else {
            self.buttons = x & !(1u64 << button);
            proof {
                assert forall|j: u64| j < 64 implies #[trigger] bit64(self.buttons, j) == Self::written(x, button, to, j) by {
                    lemma_bit64_write(x, button as u64, false, j);
                    assert(x & !(1u64 << button) | (0u64 << button) == x & !(1u64 << button)) by (bit_vector);
                }
            }
        }
    }

    /// Writes hat `hat` into its four buttons, which start at
    /// `num_real_buttons + hat`; nothing changes when that start is beyond
    /// 60.
    pub fn set_hat(&mut self, hat: u8, state: HatState)
        requires
            old(self).num_real_buttons + hat <= u8::MAX,
        ensures
            final(self).num_real_buttons == old(self).num_real_buttons,
            forall|j: u64| j < 64 ==> #[trigger] bit64(final(self).buttons, j) == hat_written(old(self).buttons, old(self).num_real_buttons, hat, state, j),
    {
        let up = state == HatState::Up || state == HatState::LeftUp || state == HatState::RightUp;
        let down = state == HatState::Down || state == HatState::LeftDown || state == HatState::RightDown;
        let left = state == HatState::Left || state == HatState::LeftDown || state == HatState::LeftUp;
        let right = state == HatState::Right || state == HatState::RightDown || state == HatState::RightUp;
        let hat_idx = self.num_real_buttons + hat;
        if hat_idx > 60 {
            return;
        }
        self.set_button(hat_idx, up);
        self.set_button(hat_idx + 1, down);
        self.set_button(hat_idx + 2, left);
        self.set_button(hat_idx + 3, right);
    }
}

/// Bit `j` of a joystick bank after hat `hat` is written `state` into the
/// bank `buttons` whose real buttons number `first_hat`: the four buttons
/// from `first_hat + hat` take up, down, left and right, unless that start is beyond
/// 60, where nothing changes.
pub open spec fn hat_written(buttons: u64, first_hat: u8, hat: u8, state: HatState, j: u64) -> bool {
    let start = first_hat + hat;
    if start > 60 {
        bit64(buttons, j)
    } else if j == start {
        hat_up(state)
    } else if j == start + 1 {
        hat_down(state)
    } else if j == start + 2 {
        hat_left(state)
    } else if j == start + 3 {
        hat_right(state)
    } else {
        bit64(buttons, j)
    }
}

/// Index of the entry for device `k` in a table keyed by SDL2 device
/// number.
pub open spec fn key_index<T>(s: Seq<(u32, T)>, k: u32) -> Option<int>
    decreases s.len(),
{
    if s.len() == 0 {
        None
    } else if s.last().0 == k {
        Some(s.len() - 1)
    } else {
        key_index(s.drop_last(), k)
    }
}

/// No device number occurs twice in the table.
pub open spec fn keys_unique<T>(s: Seq<(u32, T)>) -> bool {
    forall|i: int, j: int| 0 <= i < j < s.len() ==> #[trigger] s[i].0 != #[trigger] s[j].0
}

/// The table with device `k` set to `v`: its entry replaced in place, or a
/// new entry added at the end.
pub open spec fn with_entry<T>(s: Seq<(u32, T)>, k: u32, v: T) -> Seq<(u32, T)> {
    match key_index(s, k) {
        Some(i) => s.update(i, (k, v)),
        None => s.push((k, v)),
    }
}

/// The table without device `k`.
pub open spec fn without_key<T>(s: Seq<(u32, T)>, k: u32) -> Seq<(u32, T)> {
    match key_index(s, k) {
        Some(i) => s.remove(i),
        None => s,
    }
}

proof fn lemma_key_index<T>(s: Seq<(u32, T)>, k: u32)
    ensures
        match key_index(s, k) {
            Some(i) => 0 <= i < s.len() && s[i].0 == k,
            None => forall|i: int| 0 <= i < s.len() ==> #[trigger] s[i].0 != k,
        },
    decreases s.len(),
{
    if s.len() > 0 {
        lemma_key_index(s.drop_last(), k);
        if s.last().0 != k {
            assert forall|i: int| 0 <= i < s.len() - 1 implies #[trigger] s[i] == s.drop_last()[i] by {}
        }
    }
}

proof fn lemma_with_entry_unique<T>(s: Seq<(u32, T)>, k: u32, v: T)
    requires
        keys_unique(s),
    ensures
        keys_unique(with_entry(s, k, v)),
{
    lemma_key_index(s, k);
    let t = with_entry(s, k, v);
    assert forall|i: int, j: int| 0 <= i < j < t.len() implies #[trigger] t[i].0 != #[trigger] t[j].0 by {
        match key_index(s, k) {
            Some(x) => {
                if i != x && j != x {
                    assert(t[i] == s[i] && t[j] == s[j]);
                } else if i == x {
                    assert(t[j] == s[j]);
                } else {
                    assert(t[i] == s[i]);
                }
            },
            None => {
                assert(t[i] == s[i]);
                if j < s.len() {
                    assert(t[j] == s[j]);
                }
            },
        }
    }
}

proof fn lemma_without_key_unique<T>(s: Seq<(u32, T)>, k: u32)
    requires
        keys_unique(s),
    ensures
        keys_unique(without_key(s, k)),
        forall|i: int| 0 <= i < without_key(s, k).len() ==> #[trigger] without_key(s, k)[i].0 != k,
{
    lemma_key_index(s, k);
    let t = without_key(s, k);
    match key_index(s, k) {
        Some(x) => {
            assert forall|i: int| 0 <= i < t.len() implies #[trigger] t[i] == (if i < x { s[i] } else { s[i + 1] }) by {}
            assert forall|i: int, j: int| 0 <= i < j < t.len() implies #[trigger] t[i].0 != #[trigger] t[j].0 by {
                let a = if i < x { i } else { i + 1 };
                let b = if j < x { j } else { j + 1 };
                assert(t[i] == s[a] && t[j] == s[b]);
            }
            assert forall|i: int| 0 <= i < t.len() implies #[trigger] t[i].0 != k by {
                let a = if i < x { i } else { i + 1 };
                assert(t[i] == s[a]);
            }
        },
        None => {},
    }
}

fn find_key<T>(v: &Vec<(u32, T)>, k: u32) -> (r: Option<usize>)
    ensures
        match r {
            Some(i) => key_index(v@, k) == Some(i as int) && i < v@.len() && v@[i as int].0 == k,
            None => key_index(v@, k) is None,
        },
{
    proof {
        lemma_key_index(v@, k);
    }
    let mut i: usize = v.len();
    assert(v@.subrange(0, v@.len() as int) =~= v@);
    while i > 0
        invariant
            i <= v@.len(),
            key_index(v@, k) == key_index(v@.subrange(0, i as int), k),
            match key_index(v@, k) {
                Some(x) => 0 <= x < v@.len() && v@[x].0 == k,
                None => true,
            },
        decreases i,
    {
        let ghost pre = v@.subrange(0, i as int);
        assert(pre.drop_last() =~= v@.subrange(0, i - 1));
        assert(pre.last() == v@[i - 1]);
        if v[i - 1].0 == k {
            return Some(i - 1);
        }
        i = i - 1;
    }
    assert(v@.subrange(0, 0) =~= Seq::<(u32, T)>::empty());
    None
}

/// An SDL2 event, as the event pump gives it. `controller` tells whether a
/// raw-joystick event comes from a device that SDL2 also drives as a game
/// controller; the added joystick carries its number of buttons where it
/// could be opened.
#[derive(Copy, Clone, Debug)]
pub enum SdlEvent {
    JoyAxisMotion { which: u32, controller: bool, axis: u8, value: i16 },
    JoyButton { which: u32, controller: bool, button: u8, down: bool },
    JoyHatMotion { which: u32, controller: bool, hat: u8, state: HatState },
    JoyDeviceAdded { which: u32, controller: bool, opened: Option<u32> },
    JoyDeviceRemoved { which: u32, controller: bool },
    ControllerAxisMotion { which: u32, axis: u8, value: i16 },
    ControllerButton { which: u32, button: SdlButton, down: bool },
    ControllerDeviceAdded { which: u32 },
    ControllerDeviceRemoved { which: u32 },
    /// Any other event.
    Other,
}

/// What the event loop does after an event.
#[derive(Copy, Clone, Debug, PartialEq, Eq, Structural)]
pub enum Sdl2Action {
    /// Nothing: the event is not for a known device, or not mapped.
    Ignore,
    /// Scale the event's axis value onto the joystick and publish it.
    JoystickAxis { which: u32 },
    /// Scale the event's axis value onto the game controller and publish it.
    GamepadAxis { which: u32 },
    /// Publish the changed state of the device.
    Updated { which: u32 },
    /// Register the joystick that was added.
    JoystickAdded { which: u32 },
    /// Drop the joystick's registration and handle.
    JoystickRemoved { which: u32 },
    /// Open and register the game controller that was added.
    GamepadAdded { which: u32 },
    /// Drop the game controller's registration and handle.
    GamepadRemoved { which: u32 },
    /// An event the loop does not handle: the loop stops with an error.
    Fail,
}

/// The raw joysticks and game controllers the event loop tracks, each by
/// its SDL2 device number.
pub struct SdlDevices {
    joysticks: Vec<(u32, JoystickButtons)>,
    gamepads: Vec<(u32, u64)>,
}

impl SdlDevices {
    #[verifier::type_invariant]
    spec fn wf(self) -> bool {
        keys_unique(self.joysticks@) && keys_unique(self.gamepads@)
    }

    /// The raw joysticks: device number and button bank.
    pub closed spec fn joysticks(&self) -> Seq<(u32, JoystickButtons)> {
        self.joysticks@
    }

    /// The game controllers: device number and gamepad buttons.
    pub closed spec fn gamepads(&self) -> Seq<(u32, u64)> {
        self.gamepads@
    }

    /// No devices.
    pub fn new() -> (d: SdlDevices)
        ensures
            d.joysticks() == Seq::<(u32, JoystickButtons)>::empty(),
            d.gamepads() == Seq::<(u32, u64)>::empty(),
    {
        SdlDevices { joysticks: Vec::new(), gamepads: Vec::new() }
    }

    /// The button bank of joystick `which`, if it is tracked.
    pub fn joystick(&self, which: u32) -> (r: Option<JoystickButtons>)
        ensures
            r == (match key_index(self.joysticks(), which) {
                Some(i) => Some(self.joysticks()[i].1),
                None => None::<JoystickButtons>,
            }),
    {
        match find_key(&self.joysticks, which) {
            Some(i) => Some(self.joysticks[i].1),
            None => None,
        }
    }

    /// The gamepad buttons of game controller `which`, if it is tracked.
    pub fn gamepad(&self, which: u32) -> (r: Option<u64>)
        ensures
            r == (match key_index(self.gamepads(), which) {
                Some(i) => Some(self.gamepads()[i].1),
                None => None::<u64>,
            }),
    {
        match find_key(&self.gamepads, which) {
            Some(i) => Some(self.gamepads[i].1),
            None => None,
        }
    }

    /// One event of the SDL2 event loop.
    ///
    /// Raw-joystick events from a device that is also a game controller
    /// are ignored. A button or hat event for a tracked joystick writes
    /// that joystick's bank as `set_button` and `set_hat` do; a button
    /// event for a tracked game controller applies it as
    /// `apply_button_event` does, and one without counterpart is ignored;
    /// an axis event for a tracked device asks for its scaled value. An
    /// added device is tracked with an empty bank (a joystick only where it
    /// could be opened), replacing an entry of the same number; a removed
    /// one is dropped. Events for untracked devices change nothing, and
    /// any other event stops the loop.
    pub fn step(&mut self, event: SdlEvent) -> (a: Sdl2Action)
        requires
            match event {
                SdlEvent::JoyHatMotion { which, controller, hat, .. } => !controller ==> match key_index(old(self).joysticks(), which) {
                    Some(i) => old(self).joysticks()[i].1.num_real_buttons + hat <= u8::MAX,
                    None => true,
                },
                _ => true,
            },
        ensures
            match event {
                SdlEvent::JoyAxisMotion { which, controller, .. } => final(self).joysticks() == old(self).joysticks()
                    && final(self).gamepads() == old(self).gamepads()
                    && a == (if !controller && key_index(old(self).joysticks(), which) is Some {
                        Sdl2Action::JoystickAxis { which }
                    } else {
                        Sdl2Action::Ignore
                    }),
                SdlEvent::JoyButton { which, controller, button, down } => final(self).gamepads() == old(self).gamepads() && match key_index(old(self).joysticks(), which) {
                    Some(i) if !controller => {
                        let before = old(self).joysticks()[i].1;
                        let after = final(self).joysticks()[i].1;
                        &&& final(self).joysticks().len() == old(self).joysticks().len()
                        &&& forall|k: int| 0 <= k < old(self).joysticks().len() && k != i ==> #[trigger] final(self).joysticks()[k] == old(self).joysticks()[k]
                        &&& final(self).joysticks()[i].0 == which
                        &&& after.num_real_buttons == before.num_real_buttons
                        &&& forall|j: u64| j < 64 ==> #[trigger] bit64(after.buttons, j) == JoystickButtons::written(before.buttons, button, down, j)
                        &&& a == Sdl2Action::Updated { which }
                    },
                    _ => final(self).joysticks() == old(self).joysticks() && a == Sdl2Action::Ignore,
                },
                SdlEvent::JoyHatMotion { which, controller, hat, state } => final(self).gamepads() == old(self).gamepads() && match key_index(old(self).joysticks(), which) {
                    Some(i) if !controller => {
                        let before = old(self).joysticks()[i].1;
                        let after = final(self).joysticks()[i].1;
                        &&& final(self).joysticks().len() == old(self).joysticks().len()
                        &&& forall|k: int| 0 <= k < old(self).joysticks().len() && k != i ==> #[trigger] final(self).joysticks()[k] == old(self).joysticks()[k]
                        &&& final(self).joysticks()[i].0 == which
                        &&& after.num_real_buttons == before.num_real_buttons
                        &&& forall|j: u64| j < 64 ==> #[trigger] bit64(after.buttons, j) == hat_written(before.buttons, before.num_real_buttons, hat, state, j)
                        &&& a == Sdl2Action::Updated { which }
                    },
                    _ => final(self).joysticks() == old(self).joysticks() && a == Sdl2Action::Ignore,
                },
                SdlEvent::JoyDeviceAdded { which, controller, opened } => final(self).gamepads() == old(self).gamepads() && match opened {
                    Some(n) if !controller => final(self).joysticks() == with_entry(
                        old(self).joysticks(),
                        which,
                        JoystickButtons { buttons: 0, num_real_buttons: (n % 256) as u8 },
                    ) && a == Sdl2Action::JoystickAdded { which },
                    _ => final(self).joysticks() == old(self).joysticks() && a == Sdl2Action::Ignore,
                },
                SdlEvent::JoyDeviceRemoved { which, controller } => final(self).gamepads() == old(self).gamepads() && if controller {
                    final(self).joysticks() == old(self).joysticks() && a == Sdl2Action::Ignore
                } else {
                    final(self).joysticks() == without_key(old(self).joysticks(), which) && a == Sdl2Action::JoystickRemoved { which }
                },
                SdlEvent::ControllerAxisMotion { which, .. } => final(self).joysticks() == old(self).joysticks()
                    && final(self).gamepads() == old(self).gamepads()
                    && a == (if key_index(old(self).gamepads(), which) is Some {
                        Sdl2Action::GamepadAxis { which }
                    } else {
                        Sdl2Action::Ignore
                    }),
                SdlEvent::ControllerButton { which, button, down } => final(self).joysticks() == old(self).joysticks() && match (key_index(old(self).gamepads(), which), converted(button)) {
                    (Some(i), Some(b)) => {
                        &&& final(self).gamepads().len() == old(self).gamepads().len()
                        &&& forall|k: int| 0 <= k < old(self).gamepads().len() && k != i ==> #[trigger] final(self).gamepads()[k] == old(self).gamepads()[k]
                        &&& final(self).gamepads()[i].0 == which
                        &&& forall|j: u64| j < 64 ==> #[trigger] bit64(final(self).gamepads()[i].1, j) == (if j == b.index() { down } else { bit64(old(self).gamepads()[i].1, j) })
                        &&& a == Sdl2Action::Updated { which }
                    },
                    _ => final(self).gamepads() == old(self).gamepads() && a == Sdl2Action::Ignore,
                },
                SdlEvent::ControllerDeviceAdded { which } => final(self).joysticks() == old(self).joysticks()
                    && final(self).gamepads() == with_entry(old(self).gamepads(), which, 0u64)
                    && a == Sdl2Action::GamepadAdded { which },
                SdlEvent::ControllerDeviceRemoved { which } => final(self).joysticks() == old(self).joysticks()
                    && final(self).gamepads() == without_key(old(self).gamepads(), which)
                    && a == Sdl2Action::GamepadRemoved { which },
                SdlEvent::Other => final(self).joysticks() == old(self).joysticks()
                    && final(self).gamepads() == old(self).gamepads()
                    && a == Sdl2Action::Fail,
            },
            keys_unique(final(self).joysticks()),
            keys_unique(final(self).gamepads()),
    {
        proof {
            use_type_invariant(&*self);
        }
        let mut js: Vec<(u32, JoystickButtons)> = Vec::new();
        let mut gs: Vec<(u32, u64)> = Vec::new();
        std::mem::swap(&mut js, &mut self.joysticks);
        std::mem::swap(&mut gs, &mut self.gamepads);
        let ghost js0 = js@;
        let ghost gs0 = gs@;
        let a = match event {
            SdlEvent::JoyAxisMotion { which, controller, .. } => {
                if !controller && find_key(&js, which).is_some() {
                    Sdl2Action::JoystickAxis { which }
                } else {
                    Sdl2Action::Ignore
                }
            },
            SdlEvent::JoyButton { which, controller, button, down } => {
                match find_key(&js, which) {
                    Some(i) if !controller => {
                        let (w, mut bank) = js[i];
                        bank.set_button(button, down);
                        js.set(i, (w, bank));
                        proof {
                            lemma_key_index(js0, which);
                            assert forall|x: int, y: int| 0 <= x < y < js@.len() implies #[trigger] js@[x].0 != #[trigger] js@[y].0 by {
                                assert(js@[x].0 == js0[x].0 && js@[y].0 == js0[y].0);
                            }
                        }
                        Sdl2Action::Updated { which }
                    },
                    _ => Sdl2Action::Ignore,
                }
            },
            SdlEvent::JoyHatMotion { which, controller, hat, state } => {
                match find_key(&js, which) {
                    Some(i) if !controller => {
                        let (w, mut bank) = js[i];
                        bank.set_hat(hat, state);
                        js.set(i, (w, bank));
                        proof {
                            lemma_key_index(js0, which);
                            assert forall|x: int, y: int| 0 <= x < y < js@.len() implies #[trigger] js@[x].0 != #[trigger] js@[y].0 by {
                                assert(js@[x].0 == js0[x].0 && js@[y].0 == js0[y].0);
                            }
                        }
                        Sdl2Action::Updated { which }
                    },
                    _ => Sdl2Action::Ignore,
                }
            },
            SdlEvent::JoyDeviceAdded { which, controller, opened } => {
                match opened {
                    Some(n) if !controller => {
                        let count: u8 = (#[verifier::truncate] (n as u8));
                        assert(count == n % 256) by (bit_vector)
                            requires
                                count == (n as u8),
                        ;
                        let bank = JoystickButtons { buttons: 0, num_real_buttons: count };
                        proof {
                            lemma_with_entry_unique(js0, which, bank);
                        }
                        match find_key(&js, which) {
                            Some(i) => {
                                js.set(i, (which, bank));
                            },
                            None => {
                                js.push((which, bank));
                            },
                        }
                        Sdl2Action::JoystickAdded { which }
                    },
                    _ => Sdl2Action::Ignore,
                }
            },
            SdlEvent::JoyDeviceRemoved { which, controller } => {
                if controller {
                    Sdl2Action::Ignore
                } else {
                    proof {
                        lemma_without_key_unique(js0, which);
                    }
                    match find_key(&js, which) {
                        Some(i) => {
                            js.remove(i);
                        },
                        None => {},
                    }
                    Sdl2Action::JoystickRemoved { which }
                }
            },
            SdlEvent::ControllerAxisMotion { which, .. } => {
                if find_key(&gs, which).is_some() {
                    Sdl2Action::GamepadAxis { which }
                } else {
                    Sdl2Action::Ignore
                }
            },
            SdlEvent::ControllerButton { which, button, down } => {
                match (find_key(&gs, which), convert_button(button)) {
                    (Some(i), Some(_)) => {
                        let (w, mut buttons) = gs[i];
                        apply_button_event(&mut buttons, button, down);
                        gs.set(i, (w, buttons));
                        proof {
                            lemma_key_index(gs0, which);
                            assert forall|x: int, y: int| 0 <= x < y < gs@.len() implies #[trigger] gs@[x].0 != #[trigger] gs@[y].0 by {
                                assert(gs@[x].0 == gs0[x].0 && gs@[y].0 == gs0[y].0);
                            }
                        }
                        Sdl2Action::Updated { which }
                    },
                    _ => Sdl2Action::Ignore,
                }
            },
            SdlEvent::ControllerDeviceAdded { which } => {
                proof {
                    lemma_with_entry_unique(gs0, which, 0u64);
                }
                match find_key(&gs, which) {
                    Some(i) => {
                        gs.set(i, (which, 0));
                    },
                    None => {
                        gs.push((which, 0));
                    },
                }
                Sdl2Action::GamepadAdded { which }
            },
            SdlEvent::ControllerDeviceRemoved { which } => {
                proof {
                    lemma_without_key_unique(gs0, which);
                }
                match find_key(&gs, which) {
                    Some(i) => {
                        gs.remove(i);
                    },
                    None => {},
                }
                Sdl2Action::GamepadRemoved { which }
            },
            SdlEvent::Other => Sdl2Action::Fail,
        };
        self.joysticks = js;
        self.gamepads = gs;
        a
    }
}

/// Number of analog axes a joystick bank records.
pub open spec fn axis_count(num_axes: u32) -> u8 {
    let t = (num_axes % 256) as u8;
    if t < 8 { t } else { 8 }
}

/// The bank description of a raw joystick: at most 8 axes (the axis count
/// is first truncated to 8 bits), and the first `min(64, buttons + 4 hats)`
/// buttons; also the number of real buttons, truncated to 8 bits.
pub fn joystick_layout(num_axes: u32, num_buttons: u32, num_hats: u32) -> (r: (AnalogsInfo, ButtonsInfo, u8))
    requires
        num_buttons + 4 * num_hats <= u32::MAX,
    ensures
        r.0.analogs == axis_count(num_axes),
        forall|j: u64| j < 64 ==> #[trigger] bit64(r.1.buttons, j) == (j < num_buttons + 4 * num_hats),
        r.2 == num_buttons % 256,
{
    let t: u8 = (#[verifier::truncate] (num_axes as u8));
    assert(t == num_axes % 256) by (bit_vector)
        requires
            t == (num_axes as u8),
    ;
    let num_axis: u8 = if t < 8 { t } else { 8 };
    let total = num_buttons + num_hats * 4;
    let n: u64 = if total < 64 { total as u64 } else { 64 };
    let mut buttons: u64 = 0;
    let mut i: u64 = 0;
    proof {
        assert forall|j: u64| j < 64 implies !#[trigger] bit64(buttons, j) by {
            lemma_bit64_zero(j);
        }
    }
    while i < n
        invariant
            i <= n <= 64,
            forall|j: u64| j < 64 ==> #[trigger] bit64(buttons, j) == (j < i),
        decreases n - i,
    {
        let x = buttons;
        buttons = buttons | (1u64 << i);
        proof {
            assert forall|j: u64| j < 64 implies #[trigger] bit64(buttons, j) == (j < i + 1) by {
                lemma_bit64_or(x, i, j);
            }
        }
        i = i + 1;
    }
    let real_count: u8 = num_buttons as u8;
    assert(real_count == num_buttons % 256) by (bit_vector)
        requires
            real_count == (num_buttons as u8),
    ;
    (AnalogsInfo { analogs: num_axis }, ButtonsInfo { buttons }, real_count)
}

/// The buttons of an SDL2 game controller.
pub open spec fn gamepad_buttons() -> Seq<Button> {
    seq![
        Button::A, Button::B, Button::X, Button::Y, Button::Start, Button::Select, Button::Home, Button::LStick,
        Button::RStick, Button::L1, Button::R1, Button::Up, Button::Down, Button::Left, Button::Right,
    ]
}

/// Description of an SDL2 game controller: its buttons, both sticks and the
/// L2/R2 triggers.
pub fn sdl2_gamepad_info() -> (i: ControllerInfo)
    ensures
        i == (ControllerInfo { buttons: mask_of(gamepad_buttons()), analogs: 0 }.added(Analog::LStick).added(Analog::RStick).added(Analog::L2).added(Analog::R2)),
{
    let list = [
        Button::A, Button::B, Button::X, Button::Y, Button::Start, Button::Select, Button::Home, Button::LStick,
        Button::RStick, Button::L1, Button::R1, Button::Up, Button::Down, Button::Left, Button::Right,
    ];
    assert(list@ =~= gamepad_buttons());
    ControllerInfo { buttons: buttons_mask(&list), analogs: 0 }.with_lstick().with_rstick().with_l2_analog().with_r2_analog()
}

/// The stable id of the joystick or game controller SDL2 numbers `which`.
pub fn device_id(which: u32) -> (s: String)
    ensures
        s@ == "sdl2/"@ + digit_chars(which as nat, 10),
{
    prefixed_number("sdl2/", which as u128)
}

} // verus!
