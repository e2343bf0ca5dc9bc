use zinput::component::controller::{Button, Controller, ControllerInfo};
use zinput::device::DeviceInfo;
use zinput::swi::{
    self, connected_slots, controller_to_send, num_controllers, slot_of, update_from_received, SwiButton, SwiButtons,
    SwiController,
};
use zinput::text::push_digits;
use zinput::znet::{counts_match, device_id, device_name, name_end, name_number, sender_name};

fn pressed(list: &[Button]) -> u64 {
    let mut field = 0u64;
    for b in list {
        b.set_pressed(&mut field);
    }
    field
}

#[test]
fn swi_buttons() {
    let mut b = SwiButtons::default();
    b.set_pressed(SwiButton::ZR);
    assert_eq!(b.pressed, 1 << 9);
    assert!(b.is_pressed(SwiButton::ZR));
    assert!(!b.is_pressed(SwiButton::ZL));
    for (k, s) in SwiButton::all().iter().enumerate() {
        assert_eq!(s.bit() as usize, k);
    }
    assert_eq!(swi::swi_button_of(Button::L1), Some(SwiButton::L));
    assert_eq!(swi::swi_button_of(Button::Home), None);
    assert_eq!(swi::gamepad_button_of(SwiButton::Minus), Button::Select);
}

#[test]
fn swi_slots() {
    assert_eq!(slot_of(9), 1);
    assert_eq!(slot_of(7), 7);
    assert_eq!(slot_of(255), 7);
    assert_eq!(connected_slots(&[1, 9, 4]), [false, true, false, false, true, false, false, false]);
    assert_eq!(connected_slots(&[]), [false; 8]);
    assert_eq!(num_controllers(&[false, true, false, false, true, false, false, false]), 5);
    assert_eq!(num_controllers(&[false; 8]), 0);
    assert_eq!(num_controllers(&[true; 8]), 8);
}

#[test]
fn swi_send_then_receive() {
    let mut data = Controller::default();
    data.buttons = pressed(&[Button::A, Button::Select, Button::Home, Button::L2, Button::L3]);
    data.left_stick_x = 1;
    data.right_stick_y = 200;
    let sent = controller_to_send(3, &data);
    assert_eq!(sent.number, 3);
    assert_eq!(sent.buttons.pressed, (1 << 14) | 1 | (1 << 8));
    assert_eq!(sent.left_stick, [1, 127]);
    assert_eq!(sent.right_stick, [127, 200]);
    let mut back = Controller::default();
    back.l1_analog = 6;
    update_from_received(&mut back, &sent);
    // Home and L3 have no Switch counterpart
    assert_eq!(back.buttons, pressed(&[Button::A, Button::Select, Button::L2]));
    assert_eq!((back.left_stick_x, back.left_stick_y, back.right_stick_x, back.right_stick_y), (1, 127, 127, 200));
    assert_eq!(back.l1_analog, 6);
}

#[test]
fn swi_received_controller_info() {
    let info: ControllerInfo = swi::controller_info();
    assert_eq!(info.buttons, 0x3FFF | (1 << 18) | (1 << 19) | (1 << 20));
    assert_eq!(info.analogs, 3);
    let c = SwiController::default();
    assert_eq!(c.number, 0);
}

#[test]
fn text_numbers() {
    let mut s = String::from("x");
    push_digits(&mut s, 255, 16);
    assert_eq!(s, "xFF");
    let mut s = String::new();
    push_digits(&mut s, 0, 10);
    assert_eq!(s, "0");
    let mut s = String::new();
    push_digits(&mut s, 1234567890, 10);
    assert_eq!(s, "1234567890");
    assert_eq!(zinput::text::concat("ab", "cd"), "abcd");
}

#[test]
fn znet_name_end_and_number() {
    let mut name = [0u8; 16];
    assert_eq!(name_end(&name), 0);
    assert_eq!(name_number(&name), 0);
    name[0] = 0x01;
    name[1] = 0x02;
    name[5] = 0x03;
    assert_eq!(name_end(&name), 6);
    assert_eq!(name_number(&name), 0x0300_0000_0201);
    assert_eq!(name_number(&[0xFF; 16]), u128::MAX);
    assert_eq!(name_end(&[0xFF; 16]), 16);
}

#[test]
fn znet_device_names() {
    let mut name = [0u8; 16];
    name[..6].copy_from_slice(b"zcon 7");
    assert_eq!(device_name(&name), "znet: zcon 7");
    let mut bad = [0u8; 16];
    bad[0] = 0xFF;
    bad[1] = 0x01;
    assert_eq!(device_name(&bad), "znet: 1FF");
    assert_eq!(device_name(&[0u8; 16]), "znet: ");
}

#[test]
fn znet_device_ids() {
    let mut name = [0u8; 16];
    name[0] = 0xAB;
    assert_eq!(device_id(&name, &[1, 2, 0, 0, 13]), "AB,1,2,0,0,13");
    assert_eq!(device_id(&[0u8; 16], &[0; 5]), "0,0,0,0,0,0");
    assert_eq!(device_id(&[0xFF; 16], &[0; 5]), format!("{},0,0,0,0,0", "F".repeat(32)));
}

#[test]
fn znet_counts_match() {
    let mut info = DeviceInfo::new("pad".to_string());
    info.add_controller(ControllerInfo::default());
    assert!(counts_match(&info, &[1, 0, 0, 0, 0]));
    assert!(!counts_match(&info, &[1, 1, 0, 0, 0]));
    assert!(!counts_match(&info, &[0, 0, 0, 0, 0]));
}

#[test]
fn znet_sender_names_read_back() {
    let name = sender_name(12);
    let mut expected = [0u8; 16];
    expected[..7].copy_from_slice(b"zcon 12");
    assert_eq!(name, expected);
    assert_eq!(device_name(&name), "znet: zcon 12");
    assert_eq!(device_name(&sender_name(0)), "znet: zcon 0");
}
