use zinput::component::analogs::{Analogs, AnalogsConfig, AnalogsInfo};
use zinput::component::buttons::{Buttons, ButtonsInfo};
use zinput::component::controller::{
    buttons_mask, default_remap, pack_buttons, remap_buttons, Analog, Button, Controller, ControllerInfo,
};
use zinput::component::motion::MotionInfo;
use zinput::component::mouse::Mouse;
use zinput::component::touch_pad::{TouchPad, TouchPadInfo, TouchPadShape};
use zinput::component::{ComponentData, ComponentKind};

#[test]
fn button_bit_round_trip() {
    for b in Button::buttons() {
        assert_eq!(Button::try_from_bit(b.bit() as u8), Some(b));
    }
    assert_eq!(Button::try_from_bit(22), None);
    assert_eq!(Button::try_from_bit(255), None);
}

#[test]
fn button_bits_are_positions() {
    assert_eq!(Button::A.bit(), 0);
    assert_eq!(Button::Start.bit(), 8);
    assert_eq!(Button::LStick.bit(), 18);
    assert_eq!(Button::Capture.bit(), 21);
    assert_eq!(Analog::LStick.bit(), 0);
    assert_eq!(Analog::R2.bit(), 5);
}

#[test]
fn set_pressed_then_is_pressed() {
    let mut field = 0u64;
    Button::Start.set_pressed(&mut field);
    assert_eq!(field, 1 << 8);
    assert!(Button::Start.is_pressed(field));
    assert!(!Button::A.is_pressed(field));
    Button::A.set_pressed(&mut field);
    assert_eq!(field, (1 << 8) | 1);
    Button::A.set_pressed(&mut field);
    assert_eq!(field, (1 << 8) | 1);
}

#[test]
fn names_shown_to_users() {
    assert_eq!(Button::LStick.name(), "LStick");
    assert_eq!(Button::Capture.name(), "Capture");
    assert_eq!(Analog::LStick.name(), "Left Stick");
    assert_eq!(Analog::R1.name(), "R1");
    assert_eq!(ComponentKind::TouchPad.name(), "Touch Pad");
    assert_eq!(ComponentKind::Analogs.name(), "Analogs");
}

#[test]
fn component_kind_indices() {
    assert_eq!(ComponentKind::Analogs.index(), 0);
    assert_eq!(ComponentKind::Controller.index(), 2);
    assert_eq!(ComponentKind::TouchPad.index(), 5);
}

#[test]
fn bitor_combines_bit_positions() {
    assert_eq!(Button::A | Button::B, 1);
    assert_eq!(Button::X | Button::Y, 3);
    assert_eq!(4u64 | Button::Up, 4);
    assert_eq!(0u64 | Button::Start | Button::R2, 13);
}

#[test]
fn set_button_then_has_button() {
    let mut info = ControllerInfo::default();
    info.set_button(Button::R2, true);
    assert!(info.has_button(Button::R2));
    assert!(!info.has_button(Button::L2));
    assert_eq!(info.buttons, 1 << 13);
    info.set_button(Button::A, true);
    info.set_button(Button::R2, false);
    assert!(!info.has_button(Button::R2));
    assert!(info.has_button(Button::A));
    assert_eq!(info.buttons, 1);
    assert_eq!(info.analogs, 0);
}

#[test]
fn set_analog_then_has_analog() {
    let mut info = ControllerInfo::default();
    info.set_analog(Analog::L2, true);
    assert!(info.has_analog(Analog::L2));
    assert!(!info.has_analog(Analog::R2));
    assert_eq!(info.analogs, 1 << 4);
    info.set_analog(Analog::L2, false);
    assert_eq!(info.analogs, 0);
    assert_eq!(info.buttons, 0);
}

#[test]
fn builders_add_analogs() {
    let info = ControllerInfo::default().with_lstick().with_rstick();
    assert_eq!(info.analogs, 0b11);
    let info = info.with_l1_analog().with_r1_analog().with_l2_analog().with_r2_analog();
    assert_eq!(info.analogs, 0b11_1111);
    let info = ControllerInfo::default().with_analog(Analog::R1);
    assert_eq!(info.analogs, 1 << 3);
    let info = ControllerInfo::default().with_analogs(&[Analog::L1, Analog::R2, Analog::L1]);
    assert_eq!(info.analogs, (1 << 2) | (1 << 5));
    assert!(info.has_analog(Analog::L1));
    assert!(!info.has_analog(Analog::LStick));
}

#[test]
fn buttons_mask_of_list() {
    assert_eq!(buttons_mask(&[]), 0);
    assert_eq!(buttons_mask(&[Button::A, Button::Home, Button::A]), 1 | (1 << 20));
}

#[test]
fn pack_buttons_sets_flagged_bits() {
    let mut flags = [false; 22];
    flags[0] = true;
    flags[21] = true;
    assert_eq!(pack_buttons(&flags), 1 | (1 << 21));
    assert_eq!(pack_buttons(&[false; 22]), 0);
}

#[test]
fn default_remap_is_identity() {
    let remap = default_remap();
    for i in 0..64 {
        assert_eq!(remap[i], i as u8);
    }
    assert_eq!(remap_buttons(0b1011_0110, &remap), 0b1011_0110);
    assert_eq!(remap_buttons(u64::MAX, &remap), u64::MAX);
}

#[test]
fn remap_moves_and_merges_bits() {
    let mut remap = default_remap();
    remap[0] = 1;
    remap[5] = 63;
    // bit 0 goes to bit 1 (merged with bit 1), bit 5 goes to bit 63
    assert_eq!(remap_buttons(0b10_0011, &remap), (1 << 1) | (1 << 63));
    let mut ctrl = Controller::default();
    ctrl.buttons = 1;
    ctrl.l2_analog = 9;
    ctrl.remap(&remap);
    assert_eq!(ctrl.buttons, 2);
    assert_eq!(ctrl.l2_analog, 9);
    assert_eq!(ctrl.left_stick_x, 127);
}

#[test]
fn controller_default_is_centred() {
    let c = Controller::default();
    assert_eq!(c.buttons, 0);
    assert_eq!((c.left_stick_x, c.left_stick_y, c.right_stick_x, c.right_stick_y), (127, 127, 127, 127));
    assert_eq!((c.l1_analog, c.r1_analog, c.l2_analog, c.r2_analog), (0, 0, 0, 0));
}

#[test]
fn updates_copy_the_new_state() {
    let mut c = Controller::default();
    let mut from = Controller::default();
    from.buttons = 0b101;
    from.r2_analog = 200;
    c.update(&from);
    assert!(c == from);

    let mut a = Analogs::default();
    let mut src = Analogs::default();
    src.analogs[3] = 77;
    a.update(&src);
    assert_eq!(a.analogs, src.analogs);

    let mut b = Buttons::default();
    ComponentData::update(&mut b, &Buttons { buttons: 6 });
    assert_eq!(b.buttons, 6);

    let mut t = TouchPad::default();
    let tfrom = TouchPad { touch_x: 5, touch_y: 6, pressed: true, touched: true };
    ComponentData::update(&mut t, &tfrom);
    assert!(t == tfrom);

    let mut m = Mouse::default();
    let mfrom = Mouse::default();
    m.update(&mfrom);
    assert!(m == mfrom);
}

#[test]
fn component_infos() {
    assert_eq!(AnalogsInfo::default().analogs, 0);
    assert_eq!(ButtonsInfo::default().buttons, 0);
    let cfg = AnalogsConfig::default();
    for r in cfg.ranges {
        assert_eq!(r, [0, 255]);
    }
    let m = MotionInfo::new(true, false);
    assert!(m.has_gyro && !m.has_accel);
    let d = MotionInfo::default();
    assert!(d.has_gyro && d.has_accel);
    let t = TouchPadInfo::new(TouchPadShape::Circle, true);
    assert_eq!(t.shape, TouchPadShape::Circle);
    assert!(t.is_button);
}
