//! The gamepad component: a 64-bit button field, two sticks and four analog
//! triggers, with the description (`ControllerInfo`) of which of them a
//! device has.
use vstd::prelude::*;
use crate::bits::{bit64, bit8, lemma_bit64_zero, lemma_bit64_or, lemma_bit64_write, lemma_bit8_or, lemma_bit8_write};

verus! {

/// A gamepad button. Each button owns one bit of a controller's button field.
#[derive(Copy, Clone, Debug, PartialEq, Eq, Structural)]
pub enum Button {
    A,
    B,
    X,
    Y,
    Up,
    Down,
    Left,
    Right,
    Start,
    Select,
    L1,
    R1,
    L2,
    R2,
    L3,
    R3,
    L4,
    R4,
    LStick,
    RStick,
    Home,
    Capture,
}

/// Number of buttons; they own bits `0..NUM_BUTTONS`.
pub const NUM_BUTTONS: u64 = 22;

impl Button {
    /// Position of the button's bit in a button field.
    pub open spec fn index(self) -> u64 {
        match self {
            Button::A => 0,
            Button::B => 1,
            Button::X => 2,
            Button::Y => 3,
            Button::Up => 4,
            Button::Down => 5,
            Button::Left => 6,
            Button::Right => 7,
            Button::Start => 8,
            Button::Select => 9,
            Button::L1 => 10,
            Button::R1 => 11,
            Button::L2 => 12,
            Button::R2 => 13,
            Button::L3 => 14,
            Button::R3 => 15,
            Button::L4 => 16,
            Button::R4 => 17,
            Button::LStick => 18,
            Button::RStick => 19,
            Button::Home => 20,
            Button::Capture => 21,
        }
    }

    /// The button whose bit is `i`, for `i < NUM_BUTTONS`.
    pub open spec fn from_index(i: u64) -> Button
        recommends
            i < NUM_BUTTONS,
    {
        if i == 0 {
            Button::A
        } else if i == 1 {
            Button::B
        } else if i == 2 {
            Button::X
        } else if i == 3 {
            Button::Y
        } else if i == 4 {
            Button::Up
        } else if i == 5 {
            Button::Down
        } else if i == 6 {
            Button::Left
        } else if i == 7 {
            Button::Right
        } else if i == 8 {
            Button::Start
        } else if i == 9 {
            Button::Select
        } else if i == 10 {
            Button::L1
        } else if i == 11 {
            Button::R1
        } else if i == 12 {
            Button::L2
        } else if i == 13 {
            Button::R2
        } else if i == 14 {
            Button::L3
        } else if i == 15 {
            Button::R3
        } else if i == 16 {
            Button::L4
        } else if i == 17 {
            Button::R4
        } else if i == 18 {
            Button::LStick
        } else if i == 19 {
            Button::RStick
        } else if i == 20 {
            Button::Home
        } else {
            Button::Capture
        }
    }

    /// The single-bit mask of the button.
    pub open spec fn mask(self) -> u64 {
        1u64 << self.index()
    }

    /// The button is pressed in the button field `buttons`.
    pub open spec fn pressed_in(self, buttons: u64) -> bool {
        bit64(buttons, self.index())
    }

    /// All buttons, in the order of their bits.
    pub fn buttons() -> (all: [Button; 22])
        ensures
            forall|i: int| 0 <= i < 22 ==> (#[trigger] all[i]).index() == i,
    {
        [
            Button::A,
            Button::B,
            Button::X,
            Button::Y,
            Button::Up,
            Button::Down,
            Button::Left,
            Button::Right,
            Button::Start,
            Button::Select,
            Button::L1,
            Button::R1,
            Button::L2,
            Button::R2,
            Button::L3,
            Button::R3,
            Button::L4,
            Button::R4,
            Button::LStick,
            Button::RStick,
            Button::Home,
            Button::Capture,
        ]
    }

    /// Position of the button's bit in a button field.
    pub fn bit(&self) -> (b: u64)
        ensures
            b == self.index(),
            b < NUM_BUTTONS,
    {
        match self {
            Button::A => 0,
            Button::B => 1,
            Button::X => 2,
            Button::Y => 3,
            Button::Up => 4,
            Button::Down => 5,
            Button::Left => 6,
            Button::Right => 7,
            Button::Start => 8,
            Button::Select => 9,
            Button::L1 => 10,
            Button::R1 => 11,
            Button::L2 => 12,
            Button::R2 => 13,
            Button::L3 => 14,
            Button::R3 => 15,
            Button::L4 => 16,
            Button::R4 => 17,
            Button::LStick => 18,
            Button::RStick => 19,
            Button::Home => 20,
            Button::Capture => 21,
        }
    }

    /// The button that owns bit `bit`, if any button does.
    pub fn try_from_bit(bit: u8) -> (b: Option<Button>)
        ensures
            b.is_some() <==> bit < NUM_BUTTONS,
            b.is_some() ==> b.unwrap().index() == bit,
    {
        let all = Self::buttons();
        if (bit as usize) < 22 {
            Some(all[bit as usize])
        } else {
            None
        }
    }

    /// Marks the button pressed in `buttons`; other bits are kept.
    pub fn set_pressed(&self, buttons: &mut u64)
        ensures
            *final(buttons) == *old(buttons) | self.mask(),
            self.pressed_in(*final(buttons)),
            forall|j: u64| j < 64 && j != self.index() ==> bit64(*final(buttons), j) == bit64(*old(buttons), j),
    {
        proof {
            let x = *buttons;
            assert forall|j: u64| j < 64 implies bit64(x | self.mask(), j) == (j == self.index() || bit64(x, j)) by {
                lemma_bit64_or(x, self.index(), j);
            }
            lemma_bit64_or(x, self.index(), self.index());
        }
        *buttons = *buttons | (1u64 << self.bit());
    }

    /// Whether the button is pressed in `buttons`.
    pub fn is_pressed(&self, buttons: u64) -> (r: bool)
        ensures
            r == self.pressed_in(buttons),
    {
        buttons & (1u64 << self.bit()) != 0
    }

    /// Name of the button as shown to users.
    pub open spec fn label(self) -> Seq<char> {
        match self {
            Button::A => "A"@,
            Button::B => "B"@,
            Button::X => "X"@,
            Button::Y => "Y"@,
            Button::Up => "Up"@,
            Button::Down => "Down"@,
            Button::Left => "Left"@,
            Button::Right => "Right"@,
            Button::Start => "Start"@,
            Button::Select => "Select"@,
            Button::L1 => "L1"@,
            Button::R1 => "R1"@,
            Button::L2 => "L2"@,
            Button::R2 => "R2"@,
            Button::L3 => "L3"@,
            Button::R3 => "R3"@,
            Button::L4 => "L4"@,
            Button::R4 => "R4"@,
            Button::LStick => "LStick"@,
            Button::RStick => "RStick"@,
            Button::Home => "Home"@,
            Button::Capture => "Capture"@,
        }
    }

    /// Name of the button as shown to users.
    pub fn name(&self) -> (s: &'static str)
        ensures
            s@ == self.label(),
    {
        match self {
            Button::A => "A",
            Button::B => "B",
            Button::X => "X",
            Button::Y => "Y",
            Button::Up => "Up",
            Button::Down => "Down",
            Button::Left => "Left",
            Button::Right => "Right",
            Button::Start => "Start",
            Button::Select => "Select",
            Button::L1 => "L1",
            Button::R1 => "R1",
            Button::L2 => "L2",
            Button::R2 => "R2",
            Button::L3 => "L3",
            Button::R3 => "R3",
            Button::L4 => "L4",
            Button::R4 => "R4",
            Button::LStick => "LStick",
            Button::RStick => "RStick",
            Button::Home => "Home",
            Button::Capture => "Capture",
        }
    }
}


impl core::ops::BitOr for Button {
    type Output = u64;

    /// Combines the bit positions (not the masks) of two buttons.
    fn bitor(self, rhs: Button) -> (r: u64)
        ensures
            r == self.index() | rhs.index(),
    {
        self.bit() | rhs.bit()
    }
}

impl core::ops::BitOr<Button> for u64 {
    type Output = u64;

    /// Combines a value with the bit position (not the mask) of a button.
    fn bitor(self, rhs: Button) -> (r: u64)
        ensures
            r == self | rhs.index(),
    {
        self | rhs.bit()
    }
}

impl vstd::std_specs::ops::BitOrSpecImpl for Button {
    open spec fn obeys_bitor_spec() -> bool {
        true
    }

    open spec fn bitor_req(self, rhs: Button) -> bool {
        true
    }

    open spec fn bitor_spec(self, rhs: Button) -> u64 {
        self.index() | rhs.index()
    }
}

impl vstd::std_specs::ops::BitOrSpecImpl<Button> for u64 {
    open spec fn obeys_bitor_spec() -> bool {
        true
    }

    open spec fn bitor_req(self, rhs: Button) -> bool {
        true
    }

    open spec fn bitor_spec(self, rhs: Button) -> u64 {
        self | rhs.index()
    }
}

/// An analog input of a controller. Each analog owns one bit of
/// `ControllerInfo::analogs`.
#[derive(Copy, Clone, Debug, PartialEq, Eq, Structural)]
pub enum Analog {
    LStick,
    RStick,
    L1,
    R1,
    L2,
    R2,
}

impl Analog {
    /// Position of the analog's bit.
    pub open spec fn index(self) -> u8 {
        match self {
            Analog::LStick => 0,
            Analog::RStick => 1,
            Analog::L1 => 2,
            Analog::R1 => 3,
            Analog::L2 => 4,
            Analog::R2 => 5,
        }
    }

    /// The single-bit mask of the analog.
    pub open spec fn mask(self) -> u8 {
        1u8 << self.index()
    }

    /// All analogs, in the order of their bits.
    pub fn analogs() -> (all: [Analog; 6])
        ensures
            forall|i: int| 0 <= i < 6 ==> (#[trigger] all[i]).index() == i,
    {
        [Analog::LStick, Analog::RStick, Analog::L1, Analog::R1, Analog::L2, Analog::R2]
    }

    /// Position of the analog's bit.
    pub fn bit(&self) -> (b: u8)
        ensures
            b == self.index(),
            b < 6,
    {
        match self {
            Analog::LStick => 0,
            Analog::RStick => 1,
            Analog::L1 => 2,
            Analog::R1 => 3,
            Analog::L2 => 4,
            Analog::R2 => 5,
        }
    }

    /// Name of the analog as shown to users.
    pub open spec fn label(self) -> Seq<char> {
        match self {
            Analog::LStick => "Left Stick"@,
            Analog::RStick => "Right Stick"@,
            Analog::L1 => "L1"@,
            Analog::R1 => "R1"@,
            Analog::L2 => "L2"@,
            Analog::R2 => "R2"@,
        }
    }

    /// Name of the analog as shown to users.
    pub fn name(&self) -> (s: &'static str)
        ensures
            s@ == self.label(),
    {
        match self {
            Analog::LStick => "Left Stick",
            Analog::RStick => "Right Stick",
            Analog::L1 => "L1",
            Analog::R1 => "R1",
            Analog::L2 => "L2",
            Analog::R2 => "R2",
        }
    }
}

/// Which buttons (one bit per `Button`) and analogs (one bit per `Analog`)
/// a controller has.
#[derive(Clone, PartialEq, Eq, Structural)]
pub struct ControllerInfo {
    pub buttons: u64,
    pub analogs: u8,
}

impl ControllerInfo {
    /// The description has the analog.
    pub open spec fn spec_has_analog(self, analog: Analog) -> bool {
        bit8(self.analogs, analog.index())
    }

    /// The description has the button.
    pub open spec fn spec_has_button(self, button: Button) -> bool {
        bit64(self.buttons, button.index())
    }

    /// `self` with the analog added: that bit set, every other kept.
    pub open spec fn added(self, analog: Analog) -> ControllerInfo {
        ControllerInfo { buttons: self.buttons, analogs: self.analogs | analog.mask() }
    }

    /// `self` with the button field replaced.
    pub open spec fn with_buttons(self, buttons: u64) -> ControllerInfo {
        ControllerInfo { buttons, analogs: self.analogs }
    }

    /// Adds the left stick.
    pub fn with_lstick(self) -> (r: Self)
        ensures
            r == self.added(Analog::LStick),
    {
        let mut s = self;
        s.analogs = s.analogs | (1u8 << 0u8);
        s
    }

    /// Adds the right stick.
    pub fn with_rstick(self) -> (r: Self)
        ensures
            r == self.added(Analog::RStick),
    {
        let mut s = self;
        s.analogs = s.analogs | (1u8 << 1u8);
        s
    }

    /// Adds the analog L1 trigger.
    pub fn with_l1_analog(self) -> (r: Self)
        ensures
            r == self.added(Analog::L1),
    {
        let mut s = self;
        s.analogs = s.analogs | (1u8 << 2u8);
        s
    }

    /// Adds the analog R1 trigger.
    pub fn with_r1_analog(self) -> (r: Self)
        ensures
            r == self.added(Analog::R1),
    {
        let mut s = self;
        s.analogs = s.analogs | (1u8 << 3u8);
        s
    }

    /// Adds the analog L2 trigger.
    pub fn with_l2_analog(self) -> (r: Self)
        ensures
            r == self.added(Analog::L2),
    {
        let mut s = self;
        s.analogs = s.analogs | (1u8 << 4u8);
        s
    }

    /// Adds the analog R2 trigger.
    pub fn with_r2_analog(self) -> (r: Self)
        ensures
            r == self.added(Analog::R2),
    {
        let mut s = self;
        s.analogs = s.analogs | (1u8 << 5u8);
        s
    }

    /// Adds one analog.
    pub fn with_analog(self, analog: Analog) -> (r: Self)
        ensures
            r == self.added(analog),
    {
        let mut s = self;
        s.analogs = s.analogs | (1u8 << analog.bit());
        s
    }

    /// Adds every analog of `analogs`: the analog field becomes the old one
    /// with the bits of all of them set.
    pub fn with_analogs(self, analogs: &[Analog]) -> (r: Self)
        ensures
            r.buttons == self.buttons,
            forall|j: u8| j < 8 ==> #[trigger] bit8(r.analogs, j) == (bit8(self.analogs, j) || exists|k: int| 0 <= k < analogs@.len() && analogs@[k].index() == j),
    {
        let mut s = self;
        let mut i: usize = 0;
        while i < analogs.len()
            invariant
                i <= analogs@.len(),
                s.buttons == self.buttons,
                forall|j: u8| j < 8 ==> #[trigger] bit8(s.analogs, j) == (bit8(self.analogs, j) || exists|k: int| 0 <= k < i && analogs@[k].index() == j),
            decreases analogs@.len() - i,
        {
            let a = analogs[i];
            let old_analogs = s.analogs;
            s.analogs = s.analogs | (1u8 << a.bit());
            proof {
                assert forall|j: u8| j < 8 implies #[trigger] bit8(s.analogs, j) == (bit8(self.analogs, j) || exists|k: int| 0 <= k < i + 1 && analogs@[k].index() == j) by {
                    lemma_bit8_or(old_analogs, a.index(), j);
                    if j == a.index() {
                        assert(analogs@[i as int].index() == j);
                    }
                    if exists|k: int| 0 <= k < i + 1 && analogs@[k].index() == j {
                        let k = choose|k: int| 0 <= k < i + 1 && analogs@[k].index() == j;
                        if k < i {
                        } else {
                            assert(j == a.index());
                        }
                    }
                }
            }
            i = i + 1;
        }
        s
    }

    /// Whether the description has the analog.
    pub fn has_analog(&self, analog: Analog) -> (r: bool)
        ensures
            r == self.spec_has_analog(analog),
    {
        self.analogs & (1u8 << analog.bit()) != 0
    }

    /// Whether the description has the button.
    pub fn has_button(&self, button: Button) -> (r: bool)
        ensures
            r == self.spec_has_button(button),
    {
        self.buttons & (1u64 << button.bit()) != 0
    }

    /// Gives the analog's bit the value `value`; every other bit is kept.
    pub fn set_analog(&mut self, analog: Analog, value: bool)
        ensures
            final(self).buttons == old(self).buttons,
            final(self).analogs == old(self).analogs & !analog.mask() | ((if value { 1u8 } else { 0u8 }) << analog.index()),
            forall|j: u8| j < 8 ==> #[trigger] bit8(final(self).analogs, j) == (if j == analog.index() { value } else { bit8(old(self).analogs, j) }),
    {
        proof {
            let x = self.analogs;
            let b: u8 = if value { 1u8 } else { 0u8 };
            let y = x & !analog.mask() | (b << analog.index());
            assert forall|j: u8| j < 8 implies #[trigger] bit8(y, j) == (if j == analog.index() { value } else { bit8(x, j) }) by {
                lemma_bit8_write(x, analog.index(), value, j);
            }
        }
        let v: u8 = if value { 1 } else { 0 };
        self.analogs = self.analogs & !(1u8 << analog.bit()) | (v << analog.bit());
    }

    /// Gives the button's bit the value `value`; every other bit is kept.
    pub fn set_button(&mut self, button: Button, value: bool)
        ensures
            final(self).analogs == old(self).analogs,
            final(self).buttons == old(self).buttons & !button.mask() | ((if value { 1u64 } else { 0u64 }) << button.index()),
            forall|j: u64| j < 64 ==> #[trigger] bit64(final(self).buttons, j) == (if j == button.index() { value } else { bit64(old(self).buttons, j) }),
    {
        proof {
            let x = self.buttons;
            let b: u64 = if value { 1u64 } else { 0u64 };
            let y = x & !button.mask() | (b << button.index());
            assert forall|j: u64| j < 64 implies #[trigger] bit64(y, j) == (if j == button.index() { value } else { bit64(x, j) }) by {
                lemma_bit64_write(x, button.index(), value, j);
            }
        }
        let v: u64 = if value { 1 } else { 0 };
        self.buttons = self.buttons & !(1u64 << button.bit()) | (v << button.bit());
    }
}

impl Default for ControllerInfo {
    /// No buttons and no analogs.
    fn default() -> (r: Self)
        ensures
            r.buttons == 0 && r.analogs == 0,
    {
        ControllerInfo { buttons: 0, analogs: 0 }
    }
}

/// The button-remapping table of a default configuration: every button
/// stays on its own bit.
pub fn default_remap() -> (remap: [u8; 64])
    ensures
        forall|i: int| 0 <= i < 64 ==> remap[i] == i,
{
    let mut remap = [0u8; 64];
    let mut i: usize = 0;
    while i < 64
        invariant
            i <= 64,
            forall|k: int| 0 <= k < i ==> remap[k] == k,
        decreases 64 - i,
    {
        remap[i] = i as u8;
        i = i + 1;
    }
    remap
}

/// Bit `j` of the remapped field is set: some set bit `i` of `buttons`
/// has `remap[i] == j`.
pub open spec fn remapped_bit(buttons: u64, remap: Seq<u8>, j: u64) -> bool {
    exists|i: u64| i < 64 && #[trigger] bit64(buttons, i) && remap[i as int] == j
}

/// Moves each set bit `i` of `buttons` to bit `remap[i]`; bits that several
/// set bits map to are set once.
pub fn remap_buttons(buttons: u64, remap: &[u8; 64]) -> (out: u64)
    requires
        forall|i: int| 0 <= i < 64 ==> remap[i] < 64,
    ensures
        forall|j: u64| j < 64 ==> #[trigger] bit64(out, j) == remapped_bit(buttons, remap@, j),
{
    let mut out: u64 = 0;
    let mut i: u64 = 0;
    proof {
        assert forall|j: u64| j < 64 implies !#[trigger] bit64(out, j) by {
            lemma_bit64_zero(j);
        }
    }
    while i < 64
        invariant
            i <= 64,
            forall|k: int| 0 <= k < 64 ==> remap[k] < 64,
            forall|j: u64| j < 64 ==> #[trigger] bit64(out, j) == exists|k: u64| k < i && #[trigger] bit64(buttons, k) && remap@[k as int] == j,
        decreases 64 - i,
    {
        let old_out = out;
        if buttons & (1u64 << i) != 0 {
            let target: u8 = remap[i as usize];
            out = out | (1u64 << (target as u64));
            proof {
                assert forall|j: u64| j < 64 implies #[trigger] bit64(out, j) == exists|k: u64| k < i + 1 && #[trigger] bit64(buttons, k) && remap@[k as int] == j by {
                    lemma_bit64_or(old_out, target as u64, j);
                    if j == target as u64 {
                        assert(bit64(buttons, i) && remap@[i as int] == j);
                    }
                    if exists|k: u64| k < i + 1 && #[trigger] bit64(buttons, k) && remap@[k as int] == j {
                        let k = choose|k: u64| k < i + 1 && #[trigger] bit64(buttons, k) && remap@[k as int] == j;
                        if k < i {
                            assert(bit64(old_out, j));
                        }
                    }
                }
            }
        } else {
            proof {
                assert forall|j: u64| j < 64 implies #[trigger] bit64(out, j) == exists|k: u64| k < i + 1 && #[trigger] bit64(buttons, k) && remap@[k as int] == j by {
                    if exists|k: u64| k < i + 1 && #[trigger] bit64(buttons, k) && remap@[k as int] == j {
                        let k = choose|k: u64| k < i + 1 && #[trigger] bit64(buttons, k) && remap@[k as int] == j;
                        assert(k != i);
                    }
                }
            }
        }
        i = i + 1;
    }
    out
}

/// The state of a gamepad: the button field (one bit per `Button`), the
/// stick positions (127 is the centre) and the analog triggers.
#[derive(Copy, Clone, PartialEq, Eq, Structural)]
pub struct Controller {
    pub buttons: u64,
    pub left_stick_x: u8,
    pub left_stick_y: u8,
    pub right_stick_x: u8,
    pub right_stick_y: u8,
    pub l1_analog: u8,
    pub r1_analog: u8,
    pub l2_analog: u8,
    pub r2_analog: u8,
}

impl Controller {
    /// Copies every field of `from`.
    pub fn update(&mut self, from: &Self)
        ensures
            *final(self) == *from,
    {
        *self = *from;
    }

    /// Applies a button-remapping table to the button field; the sticks
    /// and triggers are kept.
    pub fn remap(&mut self, remap: &[u8; 64])
        requires
            forall|i: int| 0 <= i < 64 ==> remap[i] < 64,
        ensures
            final(self).left_stick_x == old(self).left_stick_x,
            final(self).left_stick_y == old(self).left_stick_y,
            final(self).right_stick_x == old(self).right_stick_x,
            final(self).right_stick_y == old(self).right_stick_y,
            final(self).l1_analog == old(self).l1_analog,
            final(self).r1_analog == old(self).r1_analog,
            final(self).l2_analog == old(self).l2_analog,
            final(self).r2_analog == old(self).r2_analog,
            forall|j: u64| j < 64 ==> #[trigger] bit64(final(self).buttons, j) == remapped_bit(old(self).buttons, remap@, j),
    {
        self.buttons = remap_buttons(self.buttons, remap);
    }
}

impl Default for Controller {
    /// No button pressed, sticks centred at 127, triggers released.
    fn default() -> (r: Self)
        ensures
            r == (Controller {
                buttons: 0,
                left_stick_x: 127,
                left_stick_y: 127,
                right_stick_x: 127,
                right_stick_y: 127,
                l1_analog: 0,
                r1_analog: 0,
                l2_analog: 0,
                r2_analog: 0,
            }),
    {
        Controller {
            buttons: 0,
            left_stick_x: 127,
            left_stick_y: 127,
            right_stick_x: 127,
            right_stick_y: 127,
            l1_analog: 0,
            r1_analog: 0,
            l2_analog: 0,
            r2_analog: 0,
        }
    }
}

/// Each bit position belongs to one button: the button found from a
/// button's bit is that button.
pub proof fn lemma_button_index_roundtrip(b: Button)
    ensures
        Button::from_index(b.index()) == b,
        b.index() < NUM_BUTTONS,
{
}

/// Two buttons with the same bit are the same button, so `try_from_bit`
/// applied to `b.bit()` gives back `b`.
pub proof fn lemma_button_index_injective(a: Button, b: Button)
    requires
        a.index() == b.index(),
    ensures
        a == b,
{
    lemma_button_index_roundtrip(a);
    lemma_button_index_roundtrip(b);
}

/// Reading a button of a description after writing it gives the written
/// value; every other button reads as before.
pub proof fn law_set_button_then_has_button(before: ControllerInfo, after: ControllerInfo, b: Button, value: bool, c: Button)
    requires
        forall|j: u64| j < 64 ==> #[trigger] bit64(after.buttons, j) == (if j == b.index() { value } else { bit64(before.buttons, j) }),
    ensures
        after.spec_has_button(c) == (if c == b { value } else { before.spec_has_button(c) }),
{
    assert(bit64(after.buttons, c.index()) == (if c.index() == b.index() { value } else { bit64(before.buttons, c.index()) }));
    if c.index() == b.index() {
        lemma_button_index_injective(c, b);
    }
}

/// Reading an analog of a description after writing it gives the written
/// value; every other analog reads as before.
pub proof fn law_set_analog_then_has_analog(before: ControllerInfo, after: ControllerInfo, a: Analog, value: bool, c: Analog)
    requires
        forall|j: u8| j < 8 ==> #[trigger] bit8(after.analogs, j) == (if j == a.index() { value } else { bit8(before.analogs, j) }),
    ensures
        after.spec_has_analog(c) == (if c == a { value } else { before.spec_has_analog(c) }),
{
    assert(bit8(after.analogs, c.index()) == (if c.index() == a.index() { value } else { bit8(before.analogs, c.index()) }));
}

/// Adding an analog makes the description have it, and keeps every other
/// analog and every button as it was.
pub proof fn law_added_analog(info: ControllerInfo, a: Analog, c: Analog)
    ensures
        info.added(a).spec_has_analog(c) == (c == a || info.spec_has_analog(c)),
        info.added(a).buttons == info.buttons,
{
    lemma_bit8_or(info.analogs, a.index(), c.index());
}

/// The default remapping table leaves every button field as it is.
pub proof fn law_default_remap_is_identity(buttons: u64, remap: Seq<u8>, j: u64)
    requires
        remap.len() == 64,
        forall|i: int| 0 <= i < 64 ==> remap[i] == i,
        j < 64,
    ensures
        remapped_bit(buttons, remap, j) == bit64(buttons, j),
{
    if bit64(buttons, j) {
        assert(remap[j as int] == j);
    }
}

/// The button field in which exactly the buttons of `list` are pressed.
pub open spec fn mask_of(list: Seq<Button>) -> u64
    decreases list.len(),
{
    if list.len() == 0 {
        0
    } else {
        mask_of(list.drop_last()) | list.last().mask()
    }
}

/// A bit of `mask_of(list)` is set exactly when a button of the list owns it.
pub proof fn lemma_mask_of_bits(list: Seq<Button>, j: u64)
    requires
        j < 64,
    ensures
        bit64(mask_of(list), j) == exists|k: int| 0 <= k < list.len() && (#[trigger] list[k]).index() == j,
    decreases list.len(),
{
    if list.len() == 0 {
        lemma_bit64_zero(j);
    } else {
        let rest = list.drop_last();
        lemma_mask_of_bits(rest, j);
        lemma_bit64_or(mask_of(rest), list.last().index(), j);
        if exists|k: int| 0 <= k < list.len() && (#[trigger] list[k]).index() == j {
            let k = choose|k: int| 0 <= k < list.len() && (#[trigger] list[k]).index() == j;
            if k < list.len() - 1 {
                assert(rest[k] == list[k]);
            }
        }
        if exists|k: int| 0 <= k < rest.len() && (#[trigger] rest[k]).index() == j {
            let k = choose|k: int| 0 <= k < rest.len() && (#[trigger] rest[k]).index() == j;
            assert(list[k] == rest[k]);
        }
    }
}

/// The button field in which exactly the buttons of `list` are pressed.
pub fn buttons_mask(list: &[Button]) -> (m: u64)
    ensures
        m == mask_of(list@),
{
    let mut m: u64 = 0;
    let mut i: usize = 0;
    while i < list.len()
        invariant
            i <= list@.len(),
            m == mask_of(list@.take(i as int)),
        decreases list@.len() - i,
    {
        assert(list@.take(i + 1).drop_last() =~= list@.take(i as int));
        list[i].set_pressed(&mut m);
        i = i + 1;
    }
    assert(list@.take(list@.len() as int) =~= list@);
    m
}

/// The button field in which button `i` is pressed exactly when
/// `flags[i]` holds.
pub open spec fn flags_bit(flags: Seq<bool>, j: u64) -> bool {
    j < NUM_BUTTONS && flags[j as int]
}

/// Packs one pressed-flag per button (in the order of their bits) into a
/// button field.
pub fn pack_buttons(flags: &[bool; 22]) -> (m: u64)
    ensures
        forall|j: u64| j < 64 ==> #[trigger] bit64(m, j) == flags_bit(flags@, j),
{
    let mut m: u64 = 0;
    let mut i: u64 = 0;
    proof {
        assert forall|j: u64| j < 64 implies !#[trigger] bit64(m, j) by {
            lemma_bit64_zero(j);
        }
    }
    while i < 22
        invariant
            i <= 22,
            forall|j: u64| j < 64 ==> #[trigger] bit64(m, j) == (j < i && flags@[j as int]),
        decreases 22 - i,
    {
        let ghost before = m;
        if flags[i as usize] {
            m = m | (1u64 << i);
        }
        proof {
            assert forall|j: u64| j < 64 implies #[trigger] bit64(m, j) == (j < i + 1 && flags@[j as int]) by {
                lemma_bit64_or(before, i, j);
            }
        }
        i = i + 1;
    }
    m
}

} // verus!
