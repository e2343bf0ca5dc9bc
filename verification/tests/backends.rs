use zinput::backend::gc_adaptor::{self, gc_controller_info, slot_actions, GcButton, GcButtons, SlotAction};
use zinput::backend::joycon::{
    self, check_read_request, i16_from_le, joycon_l_info, joycon_pro_info, joycon_r_info, parse_motion,
    parse_read_reply, parse_stick, parse_stick_calibration, read_reply_buffer, select_stick_data, setup_memory_read,
    spi_addr, JButton, JoyconType, MemoryReadError,
};
use zinput::backend::pa_switch;
use zinput::backend::sdl2::{apply_button_event, convert_button, joystick_layout, sdl2_gamepad_info, HatState, JoystickButtons, SdlButton};
use zinput::backend::steam_controller::{
    sc_controller_info, stick_from_pad, touch_from_pad, update_controller, update_touch_pads, Pad, ScButton, ScButtons, ScState,
};
use zinput::backend::usb::hid_filter;
use zinput::backend::usb_pa_switch::{self, DPad, PaButton, PaButtons, PaState, Stick};
use zinput::backend::xinput::{next_empty_slot, x_is_pressed, xinput_controller_info, XInputState};
use zinput::component::controller::{Button, Controller};
use zinput::component::touch_pad::TouchPad;
use zinput::xusb::{self, XusbReport};

#[test]
fn joycon_buttons_follow_their_sources() {
    // A (byte 0 bit 3), Plus (byte 1 bit 1), Down (byte 2 bit 0), RSR (byte 0 bit 4)
    let out = joycon::convert_buttons([0b1_1000, 0b10, 0b1]);
    assert_eq!(out, 1 | (1 << 8) | (1 << 5) | (1 << 15));
    assert_eq!(joycon::convert_buttons([0, 0, 0]), 0);
    assert!(JButton::ZL.is_pressed([0, 0, 0x80]));
    assert!(!JButton::ZL.is_pressed([0x80, 0, 0]));
    assert_eq!(joycon::source_of(Button::L4), JButton::LSR);
}

#[test]
fn joycon_stick_unpacks_twelve_bit_pairs() {
    assert_eq!(parse_stick([0xAB, 0xCD, 0xEF]), [0xDAB, 0xEFC]);
    assert_eq!(parse_stick([0xFF, 0xFF, 0xFF]), [0xFFF, 0xFFF]);
    assert_eq!(parse_stick([0, 0, 0]), [0, 0]);
}

#[test]
fn joycon_types_and_infos() {
    assert_eq!(JoyconType::from_product_id(0x2006), Some(JoyconType::Left));
    assert_eq!(JoyconType::from_product_id(0x2007), Some(JoyconType::Right));
    assert_eq!(JoyconType::from_product_id(0x2009), Some(JoyconType::Pro));
    assert_eq!(JoyconType::from_product_id(0x1234), None);
    assert_eq!(JoyconType::Pro.name(), "Pro Controller");
    let l = joycon_l_info();
    assert_eq!(l.buttons, (0xF << 4) | (1 << 9) | (1 << 10) | (1 << 12) | (1 << 14) | (1 << 16) | (1 << 18) | (1 << 21));
    assert_eq!(l.analogs, 1);
    let r = joycon_r_info();
    assert_eq!(r.buttons, 0xF | (1 << 8) | (1 << 11) | (1 << 13) | (1 << 15) | (1 << 17) | (1 << 19) | (1 << 20));
    assert_eq!(r.analogs, 2);
    let p = joycon_pro_info();
    assert_eq!(p.buttons, 0x3FFF | (1 << 18) | (1 << 19) | (1 << 20) | (1 << 21));
    assert_eq!(p.analogs, 3);
    assert!(JoyconType::Left.info() == l);
}

#[test]
fn joycon_little_endian_values() {
    assert_eq!(i16_from_le(0x34, 0x12), 0x1234);
    assert_eq!(i16_from_le(0xFF, 0xFF), -1);
    assert_eq!(i16_from_le(0x00, 0x80), -32768);
    let mut data = [0u8; 49];
    data[13] = 0x01;
    data[14] = 0x02;
    data[13 + 6] = 0xFE;
    data[13 + 7] = 0xFF;
    data[13 + 24 + 10] = 0x05;
    let m = parse_motion(&data);
    assert_eq!(m[0].accel[0], 0x0201);
    assert_eq!(m[0].gyro[0], -2);
    assert_eq!(m[2].gyro[2], 5);
    assert_eq!(m[1].accel, [0, 0, 0]);
}

#[test]
fn joycon_stick_calibration_layouts() {
    let data = [0x00, 0x08, 0x80, 0x01, 0x02, 0x03, 0x10, 0x20, 0x30];
    let left = parse_stick_calibration(data, [0xAE, 0x01], true);
    assert_eq!(left.omax, [0x800, 0x800]);
    assert_eq!(left.center, [0x201, 0x030]);
    assert_eq!(left.omin, [0x010, 0x302]);
    assert_eq!(left.deadzone, 0x1AE);
    let right = parse_stick_calibration(data, [0xAE, 0xF1], false);
    assert_eq!(right.center, [0x800, 0x800]);
    assert_eq!(right.omin, [0x201, 0x030]);
    assert_eq!(right.omax, [0x010, 0x302]);
    assert_eq!(right.deadzone, 0x1AE);
}

#[test]
fn joycon_user_calibration_when_magic_present() {
    let mut user = [0u8; 22];
    user[0] = 0xB2;
    user[1] = 0xA1;
    for k in 0..9 {
        user[2 + k] = 100 + k as u8;
        user[13 + k] = 200 + k as u8;
    }
    let mut factory = [0u8; 18];
    for k in 0..18 {
        factory[k] = k as u8;
    }
    let (l, r) = select_stick_data(&user, &factory);
    assert_eq!(l, [100, 101, 102, 103, 104, 105, 106, 107, 108]);
    assert_eq!(r, [9, 10, 11, 12, 13, 14, 15, 16, 17]);
    user[11] = 0xB2;
    user[12] = 0xA1;
    let (_, r) = select_stick_data(&user, &factory);
    assert_eq!(r, [200, 201, 202, 203, 204, 205, 206, 207, 208]);
}

#[test]
fn joycon_memory_read_request_checksum() {
    assert_eq!(spi_addr(0x6020), 0xF800_6020);
    let req = setup_memory_read(0x6020, 0x18);
    assert_eq!(req, [0x71, 0x20, 0x60, 0x00, 0x00, 0x18, 0x00, 0xF7]);
    let sum: u32 = req.iter().map(|b| *b as u32).sum();
    assert_eq!(sum % 256, 0);
    let req = setup_memory_read(0xF800_8010, 0x0116);
    assert_eq!(&req[..7], &[0x71, 0x10, 0x80, 0x00, 0xF8, 0x16, 0x01]);
    let sum: u32 = req.iter().map(|b| *b as u32).sum();
    assert_eq!(sum % 256, 0);
}

#[test]
fn joycon_read_request_checks() {
    assert_eq!(check_read_request(0xFA, 300), Err(MemoryReadError::TooLarge { size: 0xFA }));
    assert_eq!(check_read_request(0x10, 24), Err(MemoryReadError::BufferTooSmall { need: 25, got: 24 }));
    assert_eq!(check_read_request(0x10, 25), Ok(()));
    assert_eq!(check_read_request(0xF9, 0xF9 + 9), Ok(()));
    assert_eq!(read_reply_buffer(5), vec![0x72, 0x8E, 0x00, 0x00, 0x00]);
}

#[test]
fn joycon_read_reply_outcomes() {
    let reply = [0x72, 0x20, 0x60, 0x00, 0x00, 0x02, 0x00, 0xAA, 0xBB, 0x00, 0x00];
    assert_eq!(parse_read_reply(&reply, 0x6020, 2), Ok(vec![0xAA, 0xBB]));
    let mut bad = reply;
    bad[0] = 0x21;
    assert_eq!(parse_read_reply(&bad, 0x6020, 2), Err(MemoryReadError::WrongId { id: 0x21 }));
    assert_eq!(parse_read_reply(&reply, 0x6021, 2), Err(MemoryReadError::WrongAddress { addr: 0x6020 }));
    let mut bad = reply;
    bad[5] = 0x03;
    assert_eq!(parse_read_reply(&bad, 0x6020, 2), Err(MemoryReadError::WrongSize { size: 3 }));
}

#[test]
fn pa_switch_report_decoding() {
    let mut ctrl = Controller::default();
    ctrl.l1_analog = 7;
    // A (byte 0 bit 2), L2 (byte 0 bit 6), Start (byte 1 bit 1), hat up-right (1)
    let data = [0b0100_0100, 0b10, 1, 10, 20, 30, 40, 0];
    pa_switch::update_from_report(&mut ctrl, &data);
    assert_eq!(ctrl.buttons, 1 | (1 << 12) | (1 << 8) | (1 << 4) | (1 << 7));
    assert_eq!(ctrl.l2_analog, 255);
    assert_eq!(ctrl.r2_analog, 0);
    assert_eq!((ctrl.left_stick_x, ctrl.left_stick_y), (10, 235));
    assert_eq!((ctrl.right_stick_x, ctrl.right_stick_y), (30, 215));
    assert_eq!(ctrl.l1_analog, 7);
    // a released hat (8) presses no direction
    assert_eq!(pa_switch::report_buttons(&[0, 0, 8, 0, 0, 0, 0, 0]), 0);
    assert!(pa_switch::is_pressed_in_report(&[0, 0, 5, 0, 0, 0, 0, 0], Button::Left));
    let info = pa_switch::controller_info();
    assert_eq!(info.analogs, 3);
    assert_eq!(info.buttons, 0x3FFF | (1 << 18) | (1 << 19) | (1 << 20) | (1 << 21));
}

#[test]
fn usb_pa_switch_state() {
    let st = PaState {
        buttons: PaButtons { pressed: (1 << 2) | (1 << 7) | (1 << 13) },
        dpad: DPad { up: false, down: true, left: false, right: false },
        left_stick: Stick { x: 1, y: 2 },
        right_stick: Stick { x: 3, y: 255 },
    };
    assert!(st.buttons.is_pressed(PaButton::A));
    assert_eq!(PaButton::Capture.bit(), 13);
    let mut ctrl = Controller::default();
    usb_pa_switch::update(&mut ctrl, &st);
    assert_eq!(ctrl.buttons, 1 | (1 << 13) | (1 << 21) | (1 << 5));
    assert_eq!((ctrl.l2_analog, ctrl.r2_analog), (0, 255));
    assert_eq!((ctrl.left_stick_x, ctrl.left_stick_y, ctrl.right_stick_x, ctrl.right_stick_y), (1, 253, 3, 0));
    assert!(usb_pa_switch::pa_is_pressed(&st.buttons, &st.dpad, Button::Down));
    // the description ors bit positions, which leaves 31
    let info = usb_pa_switch::controller_info();
    assert_eq!(info.buttons, 31);
    assert_eq!(info.analogs, 3);
}

#[test]
fn gc_adaptor_buttons_and_slots() {
    let b = GcButtons { pressed: (1 << GcButton::Z.bit()) | (1 << GcButton::L.bit()) | (1 << GcButton::Up.bit()) };
    assert!(b.is_pressed(GcButton::Z));
    assert_eq!(gc_adaptor::convert_buttons(b), (1 << 11) | (1 << 12) | (1 << 4));
    assert!(gc_adaptor::gc_is_pressed(&b, Button::R1));
    assert!(!gc_adaptor::gc_is_pressed(&b, Button::Home));
    let info = gc_controller_info();
    assert_eq!(info.buttons, 15);
    assert_eq!(info.analogs, 1 | 2 | 16 | 32);
    assert_eq!(
        slot_actions([true, false, false, false], [true, true, false, true]),
        vec![SlotAction::Update(0), SlotAction::Add(1), SlotAction::Update(1)]
    );
    assert_eq!(slot_actions([false, true, false, false], [true, false, true, true]), vec![
        SlotAction::Add(0),
        SlotAction::Update(0),
        SlotAction::Remove(1)
    ]);
    assert_eq!(slot_actions([true; 4], [true; 4]).len(), 4);
    assert_eq!(slot_actions([false; 4], [false; 4]), vec![]);
}

#[test]
fn steam_controller_pads() {
    assert_eq!(stick_from_pad(-32768), 0);
    assert_eq!(stick_from_pad(32767), 255);
    assert_eq!(stick_from_pad(-1), 128);
    assert_eq!(stick_from_pad(-256), 127);
    assert_eq!(touch_from_pad(0), 32768);
    assert_eq!(touch_from_pad(-32768), 0);
    assert!(ScButtons { pressed: 1 << 16 }.is_pressed(ScButton::RPadTouch));
}

#[test]
fn steam_controller_touched_left_pad_is_a_dpad() {
    let st = ScState {
        buttons: ScButtons { pressed: (1 << ScButton::A.bit()) | (1 << ScButton::LClick.bit()) | (1 << ScButton::LPadTouch.bit()) },
        left_pad: Pad { x: 0, y: 10000 },
        right_pad: Pad { x: 0, y: -256 },
        left_trigger: 9,
        right_trigger: 10,
    };
    let mut ctrl = Controller::default();
    ctrl.buttons = (1 << 18) | (1 << 5);
    ctrl.left_stick_x = 3;
    update_controller(&mut ctrl, &st);
    // B from A, Up from the clicked pad, the kept stick click
    assert_eq!(ctrl.buttons, (1 << 1) | (1 << 4) | (1 << 18));
    assert_eq!(ctrl.left_stick_x, 3);
    assert_eq!((ctrl.right_stick_x, ctrl.right_stick_y), (128, 127));
    assert_eq!((ctrl.l2_analog, ctrl.r2_analog), (9, 10));

    let mut pads = [TouchPad::default(); 2];
    update_touch_pads(&mut pads, &st);
    assert!(pads[0] == TouchPad { touch_x: 32768, touch_y: 42768, pressed: true, touched: true });
    assert!(pads[1] == TouchPad { touch_x: 32768, touch_y: 32512, pressed: false, touched: false });
}

#[test]
fn steam_controller_untouched_left_pad_is_a_stick() {
    let st = ScState {
        buttons: ScButtons { pressed: 1 << ScButton::LClick.bit() },
        left_pad: Pad { x: -32768, y: 32767 },
        right_pad: Pad { x: 0, y: 0 },
        left_trigger: 0,
        right_trigger: 0,
    };
    let mut ctrl = Controller::default();
    ctrl.buttons = (1 << 18) | (1 << 5);
    update_controller(&mut ctrl, &st);
    // the directions are kept, the click is the stick click
    assert_eq!(ctrl.buttons, (1 << 5) | (1 << 18));
    assert_eq!((ctrl.left_stick_x, ctrl.left_stick_y), (0, 255));
    let mut pads = [TouchPad::default(); 2];
    update_touch_pads(&mut pads, &st);
    assert!(pads[0] == TouchPad { touch_x: 32767, touch_y: 32767, pressed: false, touched: false });
    let info = sc_controller_info();
    assert_eq!(info.buttons, 0xFFFF | (1 << 18) | (1 << 19) | (1 << 20));
    assert_eq!(info.analogs, 51);
}

#[test]
fn sdl2_events() {
    assert_eq!(convert_button(SdlButton::Guide), Some(Button::Home));
    assert_eq!(convert_button(SdlButton::Paddle1), None);
    let mut b = 0u64;
    apply_button_event(&mut b, SdlButton::Back, true);
    assert_eq!(b, 1 << 9);
    apply_button_event(&mut b, SdlButton::Touchpad, true);
    assert_eq!(b, 1 << 9);
    apply_button_event(&mut b, SdlButton::Back, false);
    assert_eq!(b, 0);
}

#[test]
fn sdl2_joystick_bank() {
    let mut j = JoystickButtons { buttons: 0, num_real_buttons: 2 };
    j.set_button(1, true);
    j.set_button(70, true);
    assert_eq!(j.buttons, 2);
    j.set_hat(0, HatState::LeftUp);
    assert_eq!(j.buttons, 2 | (1 << 2) | (1 << 4));
    j.set_hat(0, HatState::Centered);
    assert_eq!(j.buttons, 2);
    let mut far = JoystickButtons { buttons: 0, num_real_buttons: 60 };
    far.set_hat(1, HatState::Up);
    assert_eq!(far.buttons, 0);

    let (axes, buttons, real) = joystick_layout(10, 3, 1);
    assert_eq!(axes.analogs, 8);
    assert_eq!(buttons.buttons, 0x7F);
    assert_eq!(real, 3);
    let (axes, buttons, real) = joystick_layout(300, 70, 0);
    assert_eq!(axes.analogs, 8);
    assert_eq!(buttons.buttons, u64::MAX);
    assert_eq!(real, 70);
    let (axes, _, _) = joystick_layout(258, 0, 0);
    assert_eq!(axes.analogs, 2);
    let info = sdl2_gamepad_info();
    assert_eq!(info.buttons, 0xFFF | (0x7 << 18));
    assert_eq!(info.analogs, 51);
}

#[test]
fn xinput_state_is_read() {
    let st = XInputState {
        gamepad: XusbReport {
            buttons: xusb::A | xusb::DPAD_UP | xusb::GUIDE,
            left_trigger: 10,
            right_trigger: 0,
            thumb_lx: -32768,
            thumb_ly: 32767,
            thumb_rx: 0,
            thumb_ry: -1,
        },
        left_trigger_pressed: true,
        right_trigger_pressed: false,
    };
    assert!(x_is_pressed(&st, Button::A));
    assert!(!x_is_pressed(&st, Button::Home));
    let mut ctrl = Controller::default();
    ctrl.r1_analog = 4;
    zinput::backend::xinput::write(&mut ctrl, &st);
    assert_eq!(ctrl.buttons, 1 | (1 << 4) | (1 << 12));
    assert_eq!((ctrl.l2_analog, ctrl.r2_analog, ctrl.r1_analog), (10, 0, 4));
    assert_eq!((ctrl.left_stick_x, ctrl.left_stick_y, ctrl.right_stick_x, ctrl.right_stick_y), (0, 255, 128, 128));
    let info = xinput_controller_info();
    assert_eq!(info.buttons, 0x3FFF | (0x3 << 18));
    assert_eq!(info.analogs, 51);
}

#[test]
fn xinput_polls_the_next_empty_slot() {
    assert_eq!(next_empty_slot(&[true, false, true, false], 0), Some(1));
    assert_eq!(next_empty_slot(&[true, false, true, false], 2), Some(3));
    assert_eq!(next_empty_slot(&[true; 4], 0), None);
    assert_eq!(next_empty_slot(&[false; 4], 4), None);
}

#[test]
fn hid_interfaces() {
    assert!(hid_filter(3, 0, 0));
    assert!(!hid_filter(3, 1, 0));
    assert!(!hid_filter(255, 0, 0));
}

#[test]
fn joycon_calibration_reads_and_result() {
    assert_eq!(
        joycon::calibration_reads(),
        [(0xF800_8010, 0x16), (0xF800_603D, 0x12), (0xF800_6089, 2), (0xF800_609B, 2)]
    );
    let mut user = [0u8; 22];
    user[0] = 0xB2;
    user[1] = 0xA1;
    user[2..11].copy_from_slice(&[0x00, 0x08, 0x80, 0x01, 0x02, 0x03, 0x10, 0x20, 0x30]);
    let mut factory = [0u8; 18];
    factory[9..18].copy_from_slice(&[0x00, 0x08, 0x80, 0x01, 0x02, 0x03, 0x10, 0x20, 0x30]);
    let (l, r) = joycon::stick_calibrations(&user, &factory, [0x10, 0x00], [0x20, 0x01]);
    assert_eq!((l.omax, l.center, l.omin, l.deadzone), ([0x800, 0x800], [0x201, 0x030], [0x010, 0x302], 0x10));
    assert_eq!((r.center, r.omin, r.omax, r.deadzone), ([0x800, 0x800], [0x201, 0x030], [0x010, 0x302], 0x120));
}

#[test]
fn device_names_and_ids() {
    assert_eq!(joycon::device_name(JoyconType::Left, 0), "Joycon Left (id 1)");
    assert_eq!(joycon::device_name(JoyconType::Pro, 41), "Pro Controller (id 42)");
    assert_eq!(pa_switch::device_name(3), "PowerA Wired Pro Controller (Adaptor 3)");
    assert_eq!(usb_pa_switch::device_name(12), "PowerA Wired Pro Controller 12");
    assert_eq!(zinput::backend::steam_controller::device_name(0), "Steam Controller (Adaptor 0)");
    assert_eq!(zinput::backend::sdl2::device_id(42), "sdl2/42");
    assert_eq!(zinput::backend::xinput::controller_name(0), "XInput Controller 1");
    assert_eq!(gc_adaptor::slot_id("AB12", 3), "gc_adaptor/AB12/3");
    assert_eq!(gc_adaptor::slot_name(7, 0), "Gamecube Adaptor 7 Slot 1");
    assert_eq!(zinput::swi::controller_name(5), "Swi Controller 5");
}
