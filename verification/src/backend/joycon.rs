//! Nintendo Joy-Con and Pro Controller: button and stick decoding of the
//! standard full-mode report, stick calibration decoding, and the SPI
//! memory-read protocol used to fetch the calibration.
use vstd::prelude::*;
use crate::bits::bit64;
use crate::text::{digit_chars, with_number};
use crate::component::controller::{Button, ControllerInfo, Analog, mask_of, buttons_mask, pack_buttons};

verus! {

/// Size of a full-mode input report.
pub const REPORT_LEN: usize = 49;

/// Id of a full-mode input report.
pub const REPORT_ID: u8 = 0x30;

/// A button as the controller reports it.
#[derive(Copy, Clone, Debug, PartialEq, Eq, Structural)]
pub enum JButton {
    A,
    B,
    X,
    Y,
    Up,
    Down,
    Left,
    Right,
    L,
    R,
    ZL,
    ZR,
    RSL,
    RSR,
    LSL,
    LSR,
    LStick,
    RStick,
    Plus,
    Minus,
    Home,
    Capture,
}

impl JButton {
    /// Which of the three button bytes holds the button.
    pub open spec fn byte(self) -> int {
        match self {
            JButton::Y | JButton::X | JButton::B | JButton::A | JButton::RSR | JButton::RSL | JButton::R | JButton::ZR => 0,
            JButton::Minus | JButton::Plus | JButton::RStick | JButton::LStick | JButton::Home | JButton::Capture => 1,
            _ => 2,
        }
    }

    /// Which bit of that byte holds the button.
    pub open spec fn bit(self) -> u8 {
        match self {
            JButton::Y => 0,
            JButton::X => 1,
            JButton::B => 2,
            JButton::A => 3,
            JButton::RSR => 4,
            JButton::RSL => 5,
            JButton::R => 6,
            JButton::ZR => 7,
            JButton::Minus => 0,
            JButton::Plus => 1,
            JButton::RStick => 2,
            JButton::LStick => 3,
            JButton::Home => 4,
            JButton::Capture => 5,
            JButton::Down => 0,
            JButton::Up => 1,
            JButton::Right => 2,
            JButton::Left => 3,
            JButton::LSR => 4,
            JButton::LSL => 5,
            JButton::L => 6,
            JButton::ZL => 7,
        }
    }

    /// The button is pressed in the three button bytes of a report.
    pub open spec fn pressed(self, buttons: [u8; 3]) -> bool {
        buttons[self.byte()] & (1u8 << self.bit()) != 0
    }

    /// Whether the button is pressed in the three button bytes of a report.
    pub fn is_pressed(self, buttons: [u8; 3]) -> (r: bool)
        ensures
            r == self.pressed(buttons),
    {
        let (i, bit): (usize, u8) = match self {
            JButton::Y => (0, 0),
            JButton::X => (0, 1),
            JButton::B => (0, 2),
            JButton::A => (0, 3),
            JButton::RSR => (0, 4),
            JButton::RSL => (0, 5),
            JButton::R => (0, 6),
            JButton::ZR => (0, 7),
            JButton::Minus => (1, 0),
            JButton::Plus => (1, 1),
            JButton::RStick => (1, 2),
            JButton::LStick => (1, 3),
            JButton::Home => (1, 4),
            JButton::Capture => (1, 5),
            JButton::Down => (2, 0),
            JButton::Up => (2, 1),
            JButton::Right => (2, 2),
            JButton::Left => (2, 3),
            JButton::LSR => (2, 4),
            JButton::LSL => (2, 5),
            JButton::L => (2, 6),
            JButton::ZL => (2, 7),
        };
        buttons[i] & (1u8 << bit) != 0
    }
}

/// The reported button that drives each controller button.
pub open spec fn source(b: Button) -> JButton {
    match b {
        Button::A => JButton::A,
        Button::B => JButton::B,
        Button::X => JButton::X,
        Button::Y => JButton::Y,
        Button::Up => JButton::Up,
        Button::Down => JButton::Down,
        Button::Left => JButton::Left,
        Button::Right => JButton::Right,
        Button::L1 => JButton::L,
        Button::R1 => JButton::R,
        Button::L2 => JButton::ZL,
        Button::R2 => JButton::ZR,
        Button::L3 => JButton::LSL,
        Button::R3 => JButton::RSR,
        Button::L4 => JButton::LSR,
        Button::R4 => JButton::RSL,
        Button::LStick => JButton::LStick,
        Button::RStick => JButton::RStick,
        Button::Start => JButton::Plus,
        Button::Select => JButton::Minus,
        Button::Home => JButton::Home,
        Button::Capture => JButton::Capture,
    }
}

/// The controller button field of the three button bytes of a report:
/// each controller button is pressed exactly when its source is.
pub fn convert_buttons(buttons: [u8; 3]) -> (out: u64)
    ensures
        forall|j: u64| j < 64 ==> #[trigger] bit64(out, j) == (j < 22 && source(Button::from_index(j)).pressed(buttons)),
{
    let all = Button::buttons();
    let mut flags = [false; 22];
    let mut i: usize = 0;
    while i < 22
        invariant
            i <= 22,
            forall|k: int| 0 <= k < 22 ==> (#[trigger] all[k]).index() == k,
            forall|k: int| 0 <= k < i ==> #[trigger] flags[k] == source(Button::from_index(k as u64)).pressed(buttons),
        decreases 22 - i,
    {
        let b = all[i];
        proof {
            crate::component::controller::lemma_button_index_roundtrip(b);
        }
        flags[i] = source_of(b).is_pressed(buttons);
        i = i + 1;
    }
    pack_buttons(&flags)
}

/// How the three button bytes of a report drive the gamepad buttons: byte
/// 0 holds Y, X, B, A (bits 0 to 3), the right rail buttons SR and SL, R
/// and ZR; byte 1 holds Minus, Plus, the right and left stick clicks, Home
/// and Capture; byte 2 holds Down, Up, Right, Left, the left rail buttons
/// SR and SL, L and ZL. L and R are the L1/R1 shoulders, ZL and ZR are
/// L2/R2, Plus is Start and Minus is Select; the left rail SL/SR are L3/L4
/// and the right rail SR/SL are R3/R4. No other gamepad button is pressed.
pub proof fn law_joycon_button_layout(buttons: [u8; 3], out: u64)
    requires
        forall|j: u64| j < 64 ==> #[trigger] bit64(out, j) == (j < 22 && source(Button::from_index(j)).pressed(buttons)),
    ensures
        bit64(out, 0) == (buttons[0] & 0x08 != 0),
        bit64(out, 1) == (buttons[0] & 0x04 != 0),
        bit64(out, 2) == (buttons[0] & 0x02 != 0),
        bit64(out, 3) == (buttons[0] & 0x01 != 0),
        bit64(out, 4) == (buttons[2] & 0x02 != 0),
        bit64(out, 5) == (buttons[2] & 0x01 != 0),
        bit64(out, 6) == (buttons[2] & 0x08 != 0),
        bit64(out, 7) == (buttons[2] & 0x04 != 0),
        bit64(out, 8) == (buttons[1] & 0x02 != 0),
        bit64(out, 9) == (buttons[1] & 0x01 != 0),
        bit64(out, 10) == (buttons[2] & 0x40 != 0),
        bit64(out, 11) == (buttons[0] & 0x40 != 0),
        bit64(out, 12) == (buttons[2] & 0x80 != 0),
        bit64(out, 13) == (buttons[0] & 0x80 != 0),
        bit64(out, 14) == (buttons[2] & 0x20 != 0),
        bit64(out, 15) == (buttons[0] & 0x10 != 0),
        bit64(out, 16) == (buttons[2] & 0x10 != 0),
        bit64(out, 17) == (buttons[0] & 0x20 != 0),
        bit64(out, 18) == (buttons[1] & 0x08 != 0),
        bit64(out, 19) == (buttons[1] & 0x04 != 0),
        bit64(out, 20) == (buttons[1] & 0x10 != 0),
        bit64(out, 21) == (buttons[1] & 0x20 != 0),
        forall|j: u64| 22 <= j < 64 ==> !#[trigger] bit64(out, j),
{
    assert((1u8 << 0u8) == 0x01u8 && (1u8 << 1u8) == 0x02u8 && (1u8 << 2u8) == 0x04u8 && (1u8 << 3u8) == 0x08u8
        && (1u8 << 4u8) == 0x10u8 && (1u8 << 5u8) == 0x20u8 && (1u8 << 6u8) == 0x40u8 && (1u8 << 7u8) == 0x80u8) by (bit_vector);
    assert(bit64(out, 0) == source(Button::A).pressed(buttons));
    assert(bit64(out, 1) == source(Button::B).pressed(buttons));
    assert(bit64(out, 2) == source(Button::X).pressed(buttons));
    assert(bit64(out, 3) == source(Button::Y).pressed(buttons));
    assert(bit64(out, 4) == source(Button::Up).pressed(buttons));
    assert(bit64(out, 5) == source(Button::Down).pressed(buttons));
    assert(bit64(out, 6) == source(Button::Left).pressed(buttons));
    assert(bit64(out, 7) == source(Button::Right).pressed(buttons));
    assert(bit64(out, 8) == source(Button::Start).pressed(buttons));
    assert(bit64(out, 9) == source(Button::Select).pressed(buttons));
    assert(bit64(out, 10) == source(Button::L1).pressed(buttons));
    assert(bit64(out, 11) == source(Button::R1).pressed(buttons));
    assert(bit64(out, 12) == source(Button::L2).pressed(buttons));
    assert(bit64(out, 13) == source(Button::R2).pressed(buttons));
    assert(bit64(out, 14) == source(Button::L3).pressed(buttons));
    assert(bit64(out, 15) == source(Button::R3).pressed(buttons));
    assert(bit64(out, 16) == source(Button::L4).pressed(buttons));
    assert(bit64(out, 17) == source(Button::R4).pressed(buttons));
    assert(bit64(out, 18) == source(Button::LStick).pressed(buttons));
    assert(bit64(out, 19) == source(Button::RStick).pressed(buttons));
    assert(bit64(out, 20) == source(Button::Home).pressed(buttons));
    assert(bit64(out, 21) == source(Button::Capture).pressed(buttons));
}

/// The reported button that drives the controller button.
pub fn source_of(b: Button) -> (j: JButton)
    ensures
        j == source(b),
{
    match b {
        Button::A => JButton::A,
        Button::B => JButton::B,
        Button::X => JButton::X,
        Button::Y => JButton::Y,
        Button::Up => JButton::Up,
        Button::Down => JButton::Down,
        Button::Left => JButton::Left,
        Button::Right => JButton::Right,
        Button::L1 => JButton::L,
        Button::R1 => JButton::R,
        Button::L2 => JButton::ZL,
        Button::R2 => JButton::ZR,
        Button::L3 => JButton::LSL,
        Button::R3 => JButton::RSR,
        Button::L4 => JButton::LSR,
        Button::R4 => JButton::RSL,
        Button::LStick => JButton::LStick,
        Button::RStick => JButton::RStick,
        Button::Start => JButton::Plus,
        Button::Select => JButton::Minus,
        Button::Home => JButton::Home,
        Button::Capture => JButton::Capture,
    }
}

/// The two 12-bit values packed into three bytes: the low byte and low
/// nibble of the middle byte, then the high nibble of the middle byte and
/// the high byte.
pub open spec fn unpack12(data: [u8; 3]) -> (u16, u16) {
    ((data[0] + (data[1] % 16) * 256) as u16, (data[1] / 16 + data[2] * 16) as u16)
}

/// Decodes the two 12-bit axes of a stick from its three report bytes.
pub fn parse_stick(data: [u8; 3]) -> (r: [u16; 2])
    ensures
        r[0] == unpack12(data).0,
        r[1] == unpack12(data).1,
        r[0] < 4096,
        r[1] < 4096,
{
    let a = data[0] as u16;
    let b = data[1] as u16;
    let c = data[2] as u16;
    let x = a | ((b & 0xF) << 8);
    let y = (b >> 4) | (c << 4);
    assert(x == a + (b % 16) * 256 && x < 4096) by (bit_vector)
        requires
            a < 256,
            b < 256,
            x == a | ((b & 0xF) << 8),
    ;
    assert(y == b / 16 + c * 16 && y < 4096) by (bit_vector)
        requires
            b < 256,
            c < 256,
            y == (b >> 4) | (c << 4),
    ;
    [x, y]
}

/// The three kinds of supported controller.
#[derive(Copy, Clone, Debug, PartialEq, Eq, Structural)]
pub enum JoyconType {
    Left,
    Right,
    Pro,
}

impl JoyconType {
    /// The product id of the kind, if `product_id` is one of them.
    pub fn from_product_id(product_id: u16) -> (t: Option<JoyconType>)
        ensures
            t == (if product_id == PID_JOYCON_L {
                Some(JoyconType::Left)
            } else if product_id == PID_JOYCON_R {
                Some(JoyconType::Right)
            } else if product_id == PID_JOYCON_PRO {
                Some(JoyconType::Pro)
            } else {
                None
            }),
    {
        if product_id == PID_JOYCON_L {
            Some(JoyconType::Left)
        } else if product_id == PID_JOYCON_R {
            Some(JoyconType::Right)
        } else if product_id == PID_JOYCON_PRO {
            Some(JoyconType::Pro)
        } else {
            None
        }
    }

    /// Name of the kind as shown to users.
    pub open spec fn label(self) -> Seq<char> {
        match self {
            JoyconType::Left => "Joycon Left"@,
            JoyconType::Right => "Joycon Right"@,
            JoyconType::Pro => "Pro Controller"@,
        }
    }

    /// Name of the kind as shown to users.
    pub fn name(&self) -> (s: &'static str)
        ensures
            s@ == self.label(),
    {
        match self {
            JoyconType::Left => "Joycon Left",
            JoyconType::Right => "Joycon Right",
            JoyconType::Pro => "Pro Controller",
        }
    }

    /// The controller description of the kind.
    pub fn info(&self) -> (i: ControllerInfo)
        ensures
            i == match self {
                JoyconType::Left => left_info(),
                JoyconType::Right => right_info(),
                JoyconType::Pro => pro_info(),
            },
    {
        match self {
            JoyconType::Left => joycon_l_info(),
            JoyconType::Right => joycon_r_info(),
            JoyconType::Pro => joycon_pro_info(),
        }
    }
}

/// Vendor id of Nintendo.
pub const VENDOR_ID: u16 = 0x057E;

/// Product id of a left Joy-Con.
pub const PID_JOYCON_L: u16 = 0x2006;

/// Product id of a right Joy-Con.
pub const PID_JOYCON_R: u16 = 0x2007;

/// Product id of a Pro Controller.
pub const PID_JOYCON_PRO: u16 = 0x2009;

/// The buttons of a left Joy-Con.
pub open spec fn left_buttons() -> Seq<Button> {
    seq![Button::Up, Button::Down, Button::Left, Button::Right, Button::Select, Button::L1, Button::L2, Button::L3, Button::L4, Button::LStick, Button::Capture]
}

/// The buttons of a right Joy-Con.
pub open spec fn right_buttons() -> Seq<Button> {
    seq![Button::A, Button::B, Button::X, Button::Y, Button::Start, Button::R1, Button::R2, Button::R3, Button::R4, Button::RStick, Button::Home]
}

/// The buttons of a Pro Controller.
pub open spec fn pro_buttons() -> Seq<Button> {
    seq![
        Button::A, Button::B, Button::X, Button::Y, Button::Start, Button::R1, Button::R2, Button::RStick, Button::Home,
        Button::Up, Button::Down, Button::Left, Button::Right, Button::Select, Button::L1, Button::L2, Button::LStick, Button::Capture,
    ]
}

/// Description of a left Joy-Con: its buttons and the left stick.
pub open spec fn left_info() -> ControllerInfo {
    ControllerInfo { buttons: mask_of(left_buttons()), analogs: 0 }.added(Analog::LStick)
}

/// Description of a right Joy-Con: its buttons and the right stick.
pub open spec fn right_info() -> ControllerInfo {
    ControllerInfo { buttons: mask_of(right_buttons()), analogs: 0 }.added(Analog::RStick)
}

/// Description of a Pro Controller: its buttons and both sticks.
pub open spec fn pro_info() -> ControllerInfo {
    ControllerInfo { buttons: mask_of(pro_buttons()), analogs: 0 }.added(Analog::LStick).added(Analog::RStick)
}

/// Description of a left Joy-Con.
pub fn joycon_l_info() -> (i: ControllerInfo)
    ensures
        i == left_info(),
{
    let list = [Button::Up, Button::Down, Button::Left, Button::Right, Button::Select, Button::L1, Button::L2, Button::L3, Button::L4, Button::LStick, Button::Capture];
    assert(list@ =~= left_buttons());
    ControllerInfo { buttons: buttons_mask(&list), analogs: 0 }.with_lstick()
}

/// Description of a right Joy-Con.
pub fn joycon_r_info() -> (i: ControllerInfo)
    ensures
        i == right_info(),
{
    let list = [Button::A, Button::B, Button::X, Button::Y, Button::Start, Button::R1, Button::R2, Button::R3, Button::R4, Button::RStick, Button::Home];
    assert(list@ =~= right_buttons());
    ControllerInfo { buttons: buttons_mask(&list), analogs: 0 }.with_rstick()
}

/// Description of a Pro Controller.
pub fn joycon_pro_info() -> (i: ControllerInfo)
    ensures
        i == pro_info(),
{
    let list = [
        Button::A, Button::B, Button::X, Button::Y, Button::Start, Button::R1, Button::R2, Button::RStick, Button::Home,
        Button::Up, Button::Down, Button::Left, Button::Right, Button::Select, Button::L1, Button::L2, Button::LStick, Button::Capture,
    ];
    assert(list@ =~= pro_buttons());
    ControllerInfo { buttons: buttons_mask(&list), analogs: 0 }.with_lstick().with_rstick()
}

/// A signed 16-bit value from its little-endian bytes.
pub open spec fn le_i16(lo: u8, hi: u8) -> int {
    if hi >= 128 {
        lo + 256 * hi - 65536
    } else {
        lo + 256 * hi
    }
}

/// Decodes a signed 16-bit value from its little-endian bytes.
pub fn i16_from_le(lo: u8, hi: u8) -> (v: i16)
    ensures
        v == le_i16(lo, hi),
{
    let u: u16 = (lo as u16) | ((hi as u16) << 8);
    assert(u == lo + 256 * hi) by (bit_vector)
        requires
            u == (lo as u16) | ((hi as u16) << 8),
    ;
    let v = u as i16;
    assert(v == (if u >= 32768 { u - 65536 } else { u as int })) by (bit_vector)
        requires
            v == u as i16,
    ;
    v
}

/// One motion sample of a report: accelerometer and gyroscope, three axes each.
#[derive(Copy, Clone, Default, Debug)]
pub struct MotionData {
    pub accel: [i16; 3],
    pub gyro: [i16; 3],
}

/// Decodes the three motion samples of a full-mode report: sample `i`
/// starts at byte `13 + 12 i`, with the three accelerometer axes and then
/// the three gyroscope axes, each little-endian.
pub fn parse_motion(data: &[u8; 49]) -> (m: [MotionData; 3])
    ensures
        forall|i: int, j: int| 0 <= i < 3 && 0 <= j < 3 ==> #[trigger] m[i].accel[j] == le_i16(data[13 + 12 * i + 2 * j], data[13 + 12 * i + 2 * j + 1]),
        forall|i: int, j: int| 0 <= i < 3 && 0 <= j < 3 ==> #[trigger] m[i].gyro[j] == le_i16(data[13 + 12 * i + 6 + 2 * j], data[13 + 12 * i + 6 + 2 * j + 1]),
{
    let mut m = [MotionData { accel: [0; 3], gyro: [0; 3] }; 3];
    let mut i: usize = 0;
    while i < 3
        invariant
            i <= 3,
            forall|k: int, j: int| 0 <= k < i && 0 <= j < 3 ==> #[trigger] m[k].accel[j] == le_i16(data[13 + 12 * k + 2 * j], data[13 + 12 * k + 2 * j + 1]),
            forall|k: int, j: int| 0 <= k < i && 0 <= j < 3 ==> #[trigger] m[k].gyro[j] == le_i16(data[13 + 12 * k + 6 + 2 * j], data[13 + 12 * k + 6 + 2 * j + 1]),
        decreases 3 - i,
    {
        let base: usize = 13 + i * 12;
        let mut sample = MotionData { accel: [0; 3], gyro: [0; 3] };
        let mut j: usize = 0;
        while j < 3
            invariant
                i < 3,
                j <= 3,
                base == 13 + 12 * i,
                forall|q: int| 0 <= q < j ==> #[trigger] sample.accel[q] == le_i16(data[base + 2 * q], data[base + 2 * q + 1]),
                forall|q: int| 0 <= q < j ==> #[trigger] sample.gyro[q] == le_i16(data[base + 6 + 2 * q], data[base + 6 + 2 * q + 1]),
            decreases 3 - j,
        {
            sample.accel[j] = i16_from_le(data[base + j * 2], data[base + j * 2 + 1]);
            sample.gyro[j] = i16_from_le(data[base + 6 + j * 2], data[base + 6 + j * 2 + 1]);
            j = j + 1;
        }
        m[i] = sample;
        i = i + 1;
    }
    m
}

/// The raw (integer) stick calibration: centre, extent below the centre,
/// extent above it, and the dead-zone radius, all 12-bit.
#[derive(Copy, Clone, Debug)]
pub struct StickCalibrationRaw {
    pub center: [u16; 2],
    pub omin: [u16; 2],
    pub omax: [u16; 2],
    pub deadzone: u16,
}

/// The first three bytes of nine.
pub open spec fn group(data: [u8; 9], g: int) -> [u8; 3] {
    [data[3 * g], data[3 * g + 1], data[3 * g + 2]]
}

/// The raw calibration that nine calibration bytes and two dead-zone bytes
/// encode. The nine bytes hold three 12-bit pairs; a left stick stores them
/// as (extent above, centre, extent below), a right stick as (centre,
/// extent below, extent above).
pub open spec fn stick_calibration(data: [u8; 9], deadzone: [u8; 2], is_left: bool) -> StickCalibrationRaw {
    let p0 = unpack12(group(data, 0));
    let p1 = unpack12(group(data, 1));
    let p2 = unpack12(group(data, 2));
    let dz = (deadzone[0] + (deadzone[1] % 16) * 256) as u16;
    if is_left {
        StickCalibrationRaw { omin: [p2.0, p2.1], center: [p1.0, p1.1], omax: [p0.0, p0.1], deadzone: dz }
    } else {
        StickCalibrationRaw { omin: [p1.0, p1.1], center: [p0.0, p0.1], omax: [p2.0, p2.1], deadzone: dz }
    }
}

/// Decodes a stick's calibration bytes.
pub fn parse_stick_calibration(data: [u8; 9], deadzone_data: [u8; 2], is_left: bool) -> (c: StickCalibrationRaw)
    ensures
        c == stick_calibration(data, deadzone_data, is_left),
{
    let v01 = parse_stick([data[0], data[1], data[2]]);
    let v23 = parse_stick([data[3], data[4], data[5]]);
    let v45 = parse_stick([data[6], data[7], data[8]]);
    let dz = parse_stick([deadzone_data[0], deadzone_data[1], 0]);
    assert(group(data, 0) =~= [data[0], data[1], data[2]]);
    assert(group(data, 1) =~= [data[3], data[4], data[5]]);
    assert(group(data, 2) =~= [data[6], data[7], data[8]]);
    let c = if is_left {
        StickCalibrationRaw { omin: [v45[0], v45[1]], center: [v23[0], v23[1]], omax: [v01[0], v01[1]], deadzone: dz[0] }
    } else {
        StickCalibrationRaw { omin: [v23[0], v23[1]], center: [v01[0], v01[1]], omax: [v45[0], v45[1]], deadzone: dz[0] }
    };
    assert(c.center@ =~= stick_calibration(data, deadzone_data, is_left).center@);
    assert(c.omin@ =~= stick_calibration(data, deadzone_data, is_left).omin@);
    assert(c.omax@ =~= stick_calibration(data, deadzone_data, is_left).omax@);
    c
}

/// Chooses the nine calibration bytes of each stick: the user calibration
/// when its two-byte magic `B2 A1` is present, the factory calibration
/// otherwise.
pub fn select_stick_data(user: &[u8; 22], factory: &[u8; 18]) -> (r: ([u8; 9], [u8; 9]))
    ensures
        forall|k: int| 0 <= k < 9 ==> #[trigger] r.0[k] == (if user[0] == 0xB2 && user[1] == 0xA1 { user[2 + k] } else { factory[k] }),
        forall|k: int| 0 <= k < 9 ==> #[trigger] r.1[k] == (if user[11] == 0xB2 && user[12] == 0xA1 { user[13 + k] } else { factory[9 + k] }),
{
    let mut left = [0u8; 9];
    let mut right = [0u8; 9];
    let use_left = user[0] == 0xB2 && user[1] == 0xA1;
    let use_right = user[11] == 0xB2 && user[12] == 0xA1;
    let mut k: usize = 0;
    while k < 9
        invariant
            k <= 9,
            use_left == (user[0] == 0xB2 && user[1] == 0xA1),
            use_right == (user[11] == 0xB2 && user[12] == 0xA1),
            forall|q: int| 0 <= q < k ==> #[trigger] left[q] == (if use_left { user[2 + q] } else { factory[q] }),
            forall|q: int| 0 <= q < k ==> #[trigger] right[q] == (if use_right { user[13 + q] } else { factory[9 + q] }),
        decreases 9 - k,
    {
        left[k] = if use_left { user[2 + k] } else { factory[k] };
        right[k] = if use_right { user[13 + k] } else { factory[9 + k] };
        k = k + 1;
    }
    (left, right)
}

/// The stick data chosen for the left stick: the user calibration when its
/// magic `B2 A1` is present, the factory calibration otherwise.
pub open spec fn chosen_left(user: [u8; 22], factory: [u8; 18], k: int) -> u8 {
    if user[0] == 0xB2 && user[1] == 0xA1 {
        user[2 + k]
    } else {
        factory[k]
    }
}

/// The stick data chosen for the right stick.
pub open spec fn chosen_right(user: [u8; 22], factory: [u8; 18], k: int) -> u8 {
    if user[11] == 0xB2 && user[12] == 0xA1 {
        user[13 + k]
    } else {
        factory[9 + k]
    }
}

/// The calibration of both sticks from the four memory reads: the user
/// and factory stick data (the user's where present) and the two dead
/// zones.
pub fn stick_calibrations(user: &[u8; 22], factory: &[u8; 18], deadzone_l: [u8; 2], deadzone_r: [u8; 2]) -> (r: (StickCalibrationRaw, StickCalibrationRaw))
    ensures
        exists|l: [u8; 9]| (forall|k: int| 0 <= k < 9 ==> #[trigger] l[k] == chosen_left(*user, *factory, k))
            && r.0 == stick_calibration(l, deadzone_l, true),
        exists|rd: [u8; 9]| (forall|k: int| 0 <= k < 9 ==> #[trigger] rd[k] == chosen_right(*user, *factory, k))
            && r.1 == stick_calibration(rd, deadzone_r, false),
{
    let (l, rd) = select_stick_data(user, factory);
    let left = parse_stick_calibration(l, deadzone_l, true);
    let right = parse_stick_calibration(rd, deadzone_r, false);
    assert(forall|k: int| 0 <= k < 9 ==> #[trigger] l[k] == chosen_left(*user, *factory, k));
    assert(forall|k: int| 0 <= k < 9 ==> #[trigger] rd[k] == chosen_right(*user, *factory, k));
    (left, right)
}

/// The memory reads of a calibration, as (address, size), in order: the
/// user stick calibration, the factory stick calibration, and the left and
/// right dead zones, all in SPI flash.
pub fn calibration_reads() -> (r: [(u32, u16); 4])
    ensures
        r@ == seq![(0xF800_8010u32, 0x16u16), (0xF800_603Du32, 0x12u16), (0xF800_6089u32, 2u16), (0xF800_609Bu32, 2u16)],
{
    let r = [(spi_addr(0x8010), 0x16), (spi_addr(0x603D), 0x12), (spi_addr(0x6086 + 3), 2), (spi_addr(0x6098 + 3), 2)];
    assert(r@ =~= seq![(0xF800_8010u32, 0x16u16), (0xF800_603Du32, 0x12u16), (0xF800_6089u32, 2u16), (0xF800_609Bu32, 2u16)]);
    r
}

/// Address in SPI flash of the calibration data at `offset`.
pub fn spi_addr(offset: u32) -> (a: u32)
    requires
        offset <= 0x07FF_FFFF,
    ensures
        a == 0xF800_0000 + offset,
{
    0xF800_0000 + offset
}

/// The feature report that asks for `size` bytes of SPI flash at `addr`:
/// command `0x71`, the address and the size little-endian, and a checksum
/// byte that makes the eight bytes sum to a multiple of 256.
pub open spec fn memory_read_request(addr: u32, size: u16) -> Seq<u8> {
    let b1 = (addr % 256) as u8;
    let b2 = ((addr / 256) % 256) as u8;
    let b3 = ((addr / 65536) % 256) as u8;
    let b4 = ((addr / 16777216) % 256) as u8;
    let b5 = (size % 256) as u8;
    let b6 = ((size / 256) % 256) as u8;
    let sum = 0x71 + b1 + b2 + b3 + b4 + b5 + b6;
    seq![0x71u8, b1, b2, b3, b4, b5, b6, ((256 - sum % 256) % 256) as u8]
}

/// Builds the feature report that asks for `size` bytes at `addr`.
pub fn setup_memory_read(addr: u32, size: u16) -> (bytes: [u8; 8])
    ensures
        bytes@ == memory_read_request(addr, size),
{
    let b1 = (#[verifier::truncate] ((addr & 0xff) as u8));
    let b2 = (#[verifier::truncate] (((addr >> 8) & 0xff) as u8));
    let b3 = (#[verifier::truncate] (((addr >> 16) & 0xff) as u8));
    let b4 = (#[verifier::truncate] (((addr >> 24) & 0xff) as u8));
    let b5 = (#[verifier::truncate] ((size & 0xff) as u8));
    let b6 = (#[verifier::truncate] (((size >> 8) & 0xff) as u8));
    assert(b1 == addr % 256 && b2 == (addr / 256) % 256 && b3 == (addr / 65536) % 256 && b4 == (addr / 16777216) % 256) by (bit_vector)
        requires
            b1 == (addr & 0xff) as u8,
            b2 == ((addr >> 8) & 0xff) as u8,
            b3 == ((addr >> 16) & 0xff) as u8,
            b4 == ((addr >> 24) & 0xff) as u8,
    ;
    assert(b5 == size % 256 && b6 == (size / 256) % 256) by (bit_vector)
        requires
            b5 == (size & 0xff) as u8,
            b6 == ((size >> 8) & 0xff) as u8,
    ;
    let mut bytes = [0x71u8, b1, b2, b3, b4, b5, b6, 0x00];
    let mut sum: u8 = 0;
    let mut i: usize = 0;
    while i < 7
        invariant
            i <= 7,
            bytes@ == seq![0x71u8, b1, b2, b3, b4, b5, b6, 0x00u8],
            sum == (partial_sum(bytes@, i as int) % 256),
        decreases 7 - i,
    {
        sum = sum.wrapping_add(bytes[i]);
        i = i + 1;
    }
    let check = (0x100u16 - (sum as u16)) as u8;
    assert(check == (256 - sum) % 256) by (bit_vector)
        requires
            check == (0x100u16 - (sum as u16)) as u8,
    ;
    assert(partial_sum(seq![0x71u8, b1, b2, b3, b4, b5, b6, 0x00u8], 7) == 0x71 + b1 + b2 + b3 + b4 + b5 + b6) by {
        reveal_with_fuel(partial_sum, 8);
    }
    bytes[7] = check;
    assert(bytes@ =~= memory_read_request(addr, size));
    bytes
}

/// Sum of the first `n` bytes.
pub open spec fn partial_sum(bytes: Seq<u8>, n: int) -> int
    decreases n,
{
    if n <= 0 {
        0
    } else {
        partial_sum(bytes, n - 1) + bytes[n - 1]
    }
}

/// The eight bytes of a memory-read request sum to a multiple of 256.
pub proof fn law_memory_read_checksum(addr: u32, size: u16)
    ensures
        partial_sum(memory_read_request(addr, size), 8) % 256 == 0,
{
    reveal_with_fuel(partial_sum, 9);
}

/// The largest number of bytes one memory read may ask for.
pub const MAX_READ_SIZE: u16 = 0xF9;

/// First bytes of the buffer that receives a memory-read reply.
pub open spec fn memory_read_prefix() -> Seq<u8> {
    seq![0x72u8, 0x8Eu8, 0x00u8]
}

/// Why a memory read failed.
#[derive(Copy, Clone, Debug, PartialEq, Eq, Structural)]
pub enum MemoryReadError {
    /// More than `MAX_READ_SIZE` bytes were asked for.
    TooLarge { size: u16 },
    /// The reply buffer cannot hold the reply.
    BufferTooSmall { need: usize, got: usize },
    /// The reply carried another report id.
    WrongId { id: u8 },
    /// The reply is for another address.
    WrongAddress { addr: u32 },
    /// The reply has another size.
    WrongSize { size: u16 },
}

/// Checks a memory-read request before it is sent: at most
/// `MAX_READ_SIZE` bytes, and a reply buffer of at least `size + 9` bytes.
pub fn check_read_request(size: u16, buf_len: usize) -> (r: Result<(), MemoryReadError>)
    ensures
        r == (if size > MAX_READ_SIZE {
            Err(MemoryReadError::TooLarge { size })
        } else if buf_len < size + 9 {
            Err(MemoryReadError::BufferTooSmall { need: (size + 9) as usize, got: buf_len })
        } else {
            Ok(())
        }),
{
    if size > MAX_READ_SIZE {
        return Err(MemoryReadError::TooLarge { size });
    }
    if buf_len < size as usize + 9 {
        return Err(MemoryReadError::BufferTooSmall { need: size as usize + 9, got: buf_len });
    }
    Ok(())
}

/// A reply buffer of `len` bytes, cleared, that starts with the memory-read
/// report id and header.
pub fn read_reply_buffer(len: usize) -> (buf: Vec<u8>)
    requires
        len >= 3,
    ensures
        buf@.len() == len,
        buf@.take(3) == memory_read_prefix(),
        forall|k: int| 3 <= k < len ==> #[trigger] buf@[k] == 0,
{
    let mut buf: Vec<u8> = Vec::new();
    buf.push(0x72);
    buf.push(0x8E);
    buf.push(0x00);
    let mut i: usize = 3;
    while i < len
        invariant
            3 <= i <= len,
            buf@.len() == i,
            buf@.take(3) == memory_read_prefix(),
            forall|k: int| 3 <= k < i ==> #[trigger] buf@[k] == 0,
        decreases len - i,
    {
        buf.push(0);
        assert(buf@.take(3) =~= memory_read_prefix());
        i = i + 1;
    }
    assert(buf@.take(3) =~= memory_read_prefix());
    buf
}

/// A little-endian 32-bit value.
pub open spec fn le_u32(b: Seq<u8>) -> int {
    b[0] + 256 * b[1] + 65536 * b[2] + 16777216 * b[3]
}

/// A little-endian 16-bit value.
pub open spec fn le_u16(b: Seq<u8>) -> int {
    b[0] + 256 * b[1]
}

/// The outcome of a memory-read reply for a request of `size` bytes at
/// `addr`: report id `0x72`, then the address and size that were asked for,
/// then the `size` data bytes at offset 7.
pub open spec fn read_reply_outcome(reply: Seq<u8>, addr: u32, size: u16) -> Result<Seq<u8>, MemoryReadError> {
    if reply[0] != 0x72 {
        Err(MemoryReadError::WrongId { id: reply[0] })
    } else if le_u32(reply.subrange(1, 5)) != addr {
        Err(MemoryReadError::WrongAddress { addr: le_u32(reply.subrange(1, 5)) as u32 })
    } else if le_u16(reply.subrange(5, 7)) != size {
        Err(MemoryReadError::WrongSize { size: le_u16(reply.subrange(5, 7)) as u16 })
    } else {
        Ok(reply.subrange(7, 7 + size))
    }
}

/// Checks a memory-read reply against the request and gives the data.
pub fn parse_read_reply(reply: &[u8], addr: u32, size: u16) -> (r: Result<Vec<u8>, MemoryReadError>)
    requires
        reply@.len() >= size + 9,
    ensures
        match r {
            Ok(data) => read_reply_outcome(reply@, addr, size) == Ok::<Seq<u8>, MemoryReadError>(data@),
            Err(e) => read_reply_outcome(reply@, addr, size) == Err::<Seq<u8>, MemoryReadError>(e),
        },
{
    if reply[0] != 0x72 {
        return Err(MemoryReadError::WrongId { id: reply[0] });
    }
    let (b1, b2, b3, b4) = (reply[1] as u32, reply[2] as u32, reply[3] as u32, reply[4] as u32);
    let ret_addr: u32 = b1 | (b2 << 8) | (b3 << 16) | (b4 << 24);
    assert(ret_addr == b1 + 256 * b2 + 65536 * b3 + 16777216 * b4) by (bit_vector)
        requires
            b1 < 256,
            b2 < 256,
            b3 < 256,
            b4 < 256,
            ret_addr == b1 | (b2 << 8) | (b3 << 16) | (b4 << 24),
    ;
    if ret_addr != addr {
        return Err(MemoryReadError::WrongAddress { addr: ret_addr });
    }
    let (s1, s2) = (reply[5] as u16, reply[6] as u16);
    let ret_size: u16 = s1 | (s2 << 8);
    assert(ret_size == s1 + 256 * s2) by (bit_vector)
        requires
            s1 < 256,
            s2 < 256,
            ret_size == s1 | (s2 << 8),
    ;
    if ret_size != size {
        return Err(MemoryReadError::WrongSize { size: ret_size });
    }
    let mut data: Vec<u8> = Vec::new();
    let mut i: usize = 0;
    while i < size as usize
        invariant
            i <= size,
            reply@.len() >= size + 9,
            data@ == reply@.subrange(7, 7 + i),
        decreases size - i,
    {
        data.push(reply[7 + i]);
        assert(data@ =~= reply@.subrange(7, 7 + i + 1));
        i = i + 1;
    }
    Ok(data)
}

/// The `i`-th memory read of a calibration, as (address, size).
pub open spec fn calibration_read(i: int) -> (u32, u16) {
    seq![(0xF800_8010u32, 0x16u16), (0xF800_603Du32, 0x12u16), (0xF800_6089u32, 2u16), (0xF800_609Bu32, 2u16)][i]
}

/// Why reading the calibration failed, and at which of the four reads.
#[derive(Copy, Clone, Debug, PartialEq, Eq, Structural)]
pub enum CalibrationError {
    /// The device did not take the request or give a reply.
    Device { read: usize },
    /// The reply did not answer the request.
    Reply { read: usize, err: MemoryReadError },
}

/// What to do next while reading the calibration.
#[derive(Copy, Clone, Debug)]
pub enum CalibrationAction {
    /// Ask for `size` bytes at `addr`.
    Read { addr: u32, size: u16 },
    /// All four reads are in: the user and factory stick data and the two
    /// dead zones, to be decoded by `stick_calibrations`.
    Done { user: [u8; 22], factory: [u8; 18], deadzone_l: [u8; 2], deadzone_r: [u8; 2] },
    /// A read failed; no further read is made.
    Failed(CalibrationError),
}

/// The four calibration reads, made in order; the data of those that
/// succeeded so far.
pub struct CalibrationReader {
    data: Vec<Vec<u8>>,
}

fn bytes22(d: &Vec<u8>) -> (a: [u8; 22])
    requires
        d@.len() == 22,
    ensures
        a@ == d@,
{
    let mut a = [0u8; 22];
    let mut i: usize = 0;
    while i < 22
        invariant
            i <= 22,
            d@.len() == 22,
            forall|k: int| 0 <= k < i ==> #[trigger] a@[k] == d@[k],
        decreases 22 - i,
    {
        a[i] = d[i];
        i = i + 1;
    }
    assert(a@ =~= d@);
    a
}

fn bytes18(d: &Vec<u8>) -> (a: [u8; 18])
    requires
        d@.len() == 18,
    ensures
        a@ == d@,
{
    let mut a = [0u8; 18];
    let mut i: usize = 0;
    while i < 18
        invariant
            i <= 18,
            d@.len() == 18,
            forall|k: int| 0 <= k < i ==> #[trigger] a@[k] == d@[k],
        decreases 18 - i,
    {
        a[i] = d[i];
        i = i + 1;
    }
    assert(a@ =~= d@);
    a
}

fn bytes2(d: &Vec<u8>) -> (a: [u8; 2])
    requires
        d@.len() == 2,
    ensures
        a@ == d@,
{
    let a = [d[0], d[1]];
    assert(a@ =~= d@);
    a
}

impl CalibrationReader {
    #[verifier::type_invariant]
    spec fn wf(self) -> bool {
        &&& self.data@.len() <= 4
        &&& forall|i: int| 0 <= i < self.data@.len() ==> #[trigger] self.data@[i]@.len() == calibration_read(i).1
    }

    /// The data of the reads that succeeded so far, in order.
    pub closed spec fn view(&self) -> Seq<Seq<u8>> {
        self.data@.map_values(|d: Vec<u8>| d@)
    }

    /// No read made yet.
    pub fn new() -> (r: CalibrationReader)
        ensures
            r.view() == Seq::<Seq<u8>>::empty(),
    {
        let r = CalibrationReader { data: Vec::new() };
        assert(r.view() =~= Seq::<Seq<u8>>::empty());
        r
    }

    /// The read to make next, while fewer than four have succeeded.
    pub fn next_read(&self) -> (r: Option<(u32, u16)>)
        ensures
            self.view().len() <= 4,
            r == (if self.view().len() < 4 { Some(calibration_read(self.view().len() as int)) } else { None }),
    {
        proof {
            use_type_invariant(self);
        }
        let reads = calibration_reads();
        if self.data.len() < 4 {
            Some(reads[self.data.len()])
        } else {
            None
        }
    }

    /// Takes the reply of the next read (`None` where the device gave
    /// none). A reply that answers the request adds its data and asks for
    /// the following read, or, after the fourth, gives the data of all
    /// four; otherwise the reading fails at this read and nothing is added.
    pub fn step(&mut self, reply: Option<&[u8]>) -> (a: CalibrationAction)
        requires
            old(self).view().len() < 4,
            match reply {
                Some(b) => b@.len() >= calibration_read(old(self).view().len() as int).1 + 9,
                None => true,
            },
        ensures
            match reply {
                None => final(self).view() == old(self).view()
                    && a == CalibrationAction::Failed(CalibrationError::Device { read: old(self).view().len() as usize }),
                Some(b) => {
                    let n = old(self).view().len() as int;
                    let (addr, size) = calibration_read(n);
                    match read_reply_outcome(b@, addr, size) {
                        Err(e) => final(self).view() == old(self).view()
                            && a == CalibrationAction::Failed(CalibrationError::Reply { read: n as usize, err: e }),
                        Ok(d) => final(self).view() == old(self).view().push(d) && if n + 1 < 4 {
                            a == (CalibrationAction::Read { addr: calibration_read(n + 1).0, size: calibration_read(n + 1).1 })
                        } else {
                            match a {
                                CalibrationAction::Done { user, factory, deadzone_l, deadzone_r } =>
                                    user@ == final(self).view()[0] && factory@ == final(self).view()[1]
                                    && deadzone_l@ == final(self).view()[2] && deadzone_r@ == final(self).view()[3],
                                _ => false,
                            }
                        },
                    }
                },
            },
    {
        proof {
            use_type_invariant(&*self);
        }
        let n = self.data.len();
        let reads = calibration_reads();
        assert(reads@[n as int] == calibration_read(n as int));
        let b = match reply {
            None => {
                return CalibrationAction::Failed(CalibrationError::Device { read: n });
            },
            Some(b) => b,
        };
        let (addr, size) = reads[n];
        let d = match parse_read_reply(b, addr, size) {
            Err(e) => {
                return CalibrationAction::Failed(CalibrationError::Reply { read: n, err: e });
            },
            Ok(d) => d,
        };
        let ghost before = self.data@;
        let mut v: Vec<Vec<u8>> = Vec::new();
        std::mem::swap(&mut v, &mut self.data);
        assert(d@ == b@.subrange(7, 7 + size));
        v.push(d);
        self.data = v;
        proof {
            assert(self.view() =~= old(self).view().push(self.data@[n as int]@));
        }
        if n + 1 < 4 {
            assert(reads@[n + 1] == calibration_read(n + 1));
            let (addr2, size2) = reads[n + 1];
            CalibrationAction::Read { addr: addr2, size: size2 }
        } else {
            CalibrationAction::Done {
                user: bytes22(&self.data[0]),
                factory: bytes18(&self.data[1]),
                deadzone_l: bytes2(&self.data[2]),
                deadzone_r: bytes2(&self.data[3]),
            }
        }
    }
}

/// The display name of a connected controller: its kind and its number
/// (one more than its id).
pub fn device_name(kind: JoyconType, id: u64) -> (s: String)
    requires
        id < u64::MAX,
    ensures
        s@ == kind.label() + " (id "@ + digit_chars((id + 1) as nat, 10) + ")"@,
{
    let mut s = String::new();
    s.append(kind.name());
    let rest = with_number(" (id ", (id + 1) as u128, ")");
    s.append(rest.as_str());
    s
}

} // verus!
