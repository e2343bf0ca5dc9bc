use zinput::component::controller::{Button, Controller};
use zinput::frontend::dsus::{expire, DsuClient, DsuPad, DsuServer, Registration, CLIENT_TIMEOUT_MS};
use zinput::frontend::uinput::{self, joystick_events, InputEvent};
use zinput::frontend::vigem::{ds4_dpad, ds4_report, thumb, xbox_report};
use zinput::backend::xinput::XInputState;
use input_linux::sys;
use zinput::xusb;

fn pressed(list: &[Button]) -> u64 {
    let mut field = 0u64;
    for b in list {
        b.set_pressed(&mut field);
    }
    field
}

#[test]
fn xbox_thumbs_are_centred_and_scaled() {
    assert_eq!(thumb(0), -32768);
    assert_eq!(thumb(128), 0);
    assert_eq!(thumb(255), 32512);
    assert_eq!(thumb(127), -256);
}

#[test]
fn xbox_report_of_a_state() {
    let mut data = Controller::default();
    data.buttons = pressed(&[Button::A, Button::Home, Button::R2, Button::L3]);
    data.l2_analog = 40;
    data.r2_analog = 3;
    data.left_stick_x = 0;
    data.left_stick_y = 255;
    data.right_stick_x = 128;
    let r = xbox_report(&data);
    assert_eq!(r.buttons, xusb::A | xusb::GUIDE);
    assert_eq!(r.left_trigger, 40);
    assert_eq!(r.right_trigger, 255);
    assert_eq!((r.thumb_lx, r.thumb_ly, r.thumb_rx, r.thumb_ry), (-32768, 32512, 0, -256));
}

#[test]
fn xbox_report_read_back_by_xinput() {
    let mut data = Controller::default();
    data.buttons = pressed(&[Button::A, Button::Up, Button::Select, Button::R1, Button::RStick, Button::Home]);
    data.left_stick_x = 3;
    data.left_stick_y = 250;
    data.right_stick_x = 128;
    data.right_stick_y = 0;
    let report = xbox_report(&data);
    let st = XInputState { gamepad: report, left_trigger_pressed: false, right_trigger_pressed: false };
    let mut back = Controller::default();
    zinput::backend::xinput::write(&mut back, &st);
    // everything but Home comes back
    assert_eq!(back.buttons, pressed(&[Button::A, Button::Up, Button::Select, Button::R1, Button::RStick]));
    assert_eq!((back.left_stick_x, back.left_stick_y, back.right_stick_x, back.right_stick_y), (3, 250, 128, 0));
}

#[test]
fn ds4_dpad_directions() {
    assert_eq!(ds4_dpad(true, false, false, false), 0);
    assert_eq!(ds4_dpad(true, true, false, false), 1);
    assert_eq!(ds4_dpad(false, false, true, true), 5);
    assert_eq!(ds4_dpad(true, false, false, true), 7);
    assert_eq!(ds4_dpad(false, false, false, false), 8);
    assert_eq!(ds4_dpad(true, false, true, false), 8);
}

#[test]
fn ds4_report_of_a_state() {
    let mut data = Controller::default();
    data.buttons = pressed(&[Button::Up, Button::Right, Button::A, Button::Home, Button::L2]);
    data.r2_analog = 17;
    data.left_stick_x = 9;
    let r = ds4_report(&data);
    assert_eq!(r.buttons, 1 | (1 << 5) | (1 << 10));
    assert_eq!(r.special, 1);
    assert_eq!((r.trigger_l, r.trigger_r), (255, 17));
    assert_eq!((r.thumb_lx, r.thumb_ly), (9, 127));
    data.buttons = pressed(&[Button::Up, Button::Down, Button::RStick]);
    let r = ds4_report(&data);
    assert_eq!(r.buttons, 8 | (1 << 15));
    assert_eq!(r.special, 0);
}

#[test]
fn uinput_events_of_a_state() {
    let mut data = Controller::default();
    data.buttons = pressed(&[Button::A, Button::Home]);
    data.left_stick_y = 0;
    data.right_stick_y = 255;
    data.l2_analog = 12;
    let events = joystick_events(&data);
    assert_eq!(events.len(), 24);
    assert_eq!(events[0], InputEvent { kind: uinput::EV_KEY, code: uinput::BTN_SOUTH, value: 1 });
    assert_eq!(events[1], InputEvent { kind: uinput::EV_KEY, code: uinput::BTN_EAST, value: 0 });
    assert_eq!(events[16], InputEvent { kind: uinput::EV_KEY, code: uinput::BTN_MODE, value: 1 });
    assert_eq!(events[17], InputEvent { kind: uinput::EV_ABS, code: uinput::ABS_X, value: 127 });
    assert_eq!(events[18], InputEvent { kind: uinput::EV_ABS, code: uinput::ABS_Y, value: 255 });
    assert_eq!(events[20], InputEvent { kind: uinput::EV_ABS, code: uinput::ABS_RY, value: 0 });
    assert_eq!(events[21], InputEvent { kind: uinput::EV_ABS, code: uinput::ABS_Z, value: 12 });
    assert_eq!(events[23], InputEvent { kind: uinput::EV_SYN, code: uinput::SYN_REPORT, value: 0 });
}

#[test]
fn uinput_codes_are_the_kernel_codes() {
    assert_eq!(uinput::EV_KEY as i32, sys::EV_KEY);
    assert_eq!(uinput::EV_ABS as i32, sys::EV_ABS);
    assert_eq!(uinput::EV_SYN as i32, sys::EV_SYN);
    assert_eq!(uinput::SYN_REPORT as i32, sys::SYN_REPORT);
    assert_eq!(uinput::BTN_SOUTH as i32, sys::BTN_SOUTH);
    assert_eq!(uinput::BTN_EAST as i32, sys::BTN_EAST);
    assert_eq!(uinput::BTN_NORTH as i32, sys::BTN_NORTH);
    assert_eq!(uinput::BTN_WEST as i32, sys::BTN_WEST);
    assert_eq!(uinput::BTN_TL as i32, sys::BTN_TL);
    assert_eq!(uinput::BTN_TR as i32, sys::BTN_TR);
    assert_eq!(uinput::BTN_TL2 as i32, sys::BTN_TL2);
    assert_eq!(uinput::BTN_TR2 as i32, sys::BTN_TR2);
    assert_eq!(uinput::BTN_SELECT as i32, sys::BTN_SELECT);
    assert_eq!(uinput::BTN_START as i32, sys::BTN_START);
    assert_eq!(uinput::BTN_MODE as i32, sys::BTN_MODE);
    assert_eq!(uinput::BTN_THUMBL as i32, sys::BTN_THUMBL);
    assert_eq!(uinput::BTN_THUMBR as i32, sys::BTN_THUMBR);
    assert_eq!(uinput::BTN_DPAD_UP as i32, sys::BTN_DPAD_UP);
    assert_eq!(uinput::BTN_DPAD_DOWN as i32, sys::BTN_DPAD_DOWN);
    assert_eq!(uinput::BTN_DPAD_LEFT as i32, sys::BTN_DPAD_LEFT);
    assert_eq!(uinput::BTN_DPAD_RIGHT as i32, sys::BTN_DPAD_RIGHT);
    assert_eq!(uinput::ABS_X as i32, sys::ABS_X);
    assert_eq!(uinput::ABS_Y as i32, sys::ABS_Y);
    assert_eq!(uinput::ABS_Z as i32, sys::ABS_Z);
    assert_eq!(uinput::ABS_RX as i32, sys::ABS_RX);
    assert_eq!(uinput::ABS_RY as i32, sys::ABS_RY);
    assert_eq!(uinput::ABS_RZ as i32, sys::ABS_RZ);
}

#[test]
fn dsu_pad_follows_the_state() {
    let mut data = Controller::default();
    data.buttons = pressed(&[Button::A, Button::L2, Button::Start, Button::Home]);
    data.l1_analog = 50;
    data.l2_analog = 60;
    let mut pad = DsuPad::new(2);
    pad.packet_number = 9;
    pad.update_controller(&data);
    assert_eq!(pad.buttons, (1 << 13) | (1 << 8) | (1 << 3));
    assert_eq!(pad.analog_a, 255);
    assert_eq!(pad.analog_b, 0);
    // the L2 button drives the R2 pressure, R2 the L2 pressure
    assert_eq!(pad.analog_r2, 255);
    assert_eq!(pad.analog_l2, 0);
    // the L1 pressure follows the L1 button, not the analog
    assert_eq!(pad.analog_l1, 0);
    assert_eq!(pad.ps_button, 255);
    assert_eq!((pad.left_stick_x, pad.right_stick_y), (127, 127));
    assert_eq!((pad.slot, pad.packet_number, pad.connected), (2, 9, false));
}

#[test]
fn dsu_client_registration() {
    let mut c = DsuClient::new(100);
    assert_eq!(c.slots, [false; 4]);
    assert_eq!(c.last_seen, 100);
    c.register(Registration::SlotBased, 6, 250);
    assert_eq!(c.slots, [false, false, true, false]);
    assert_eq!(c.last_seen, 250);
    c.register(Registration::MacBased, 0, 300);
    assert_eq!(c.slots, [false, false, true, false]);
    assert_eq!(c.last_seen, 300);
    c.register(Registration::AllControllers, 0, 400);
    assert_eq!(c.slots, [true; 4]);
    assert_eq!(c.packet_count, 0);
}

#[test]
fn dsu_clients_expire_after_timeout() {
    let mut clients = vec![
        ("a", DsuClient::new(0)),
        ("b", DsuClient::new(5_000)),
        ("c", DsuClient::new(10_000)),
        ("d", DsuClient::new(30_000)),
    ];
    // exactly the timeout since the last request is still served
    expire(&mut clients, 15_000);
    let names: Vec<&str> = clients.iter().map(|c| c.0).collect();
    assert_eq!(names, vec!["b", "c", "d"]);
    expire(&mut clients, 15_001);
    let names: Vec<&str> = clients.iter().map(|c| c.0).collect();
    assert_eq!(names, vec!["c", "d"]);
    // a clock earlier than the last request expires nobody
    expire(&mut clients, 0);
    assert_eq!(clients.len(), 2);
    // a new request keeps a client alive
    clients[0].1.register(Registration::AllControllers, 0, 24_000);
    expire(&mut clients, 30_000);
    let names: Vec<&str> = clients.iter().map(|c| c.0).collect();
    assert_eq!(names, vec!["c", "d"]);
    expire(&mut clients, 40_001);
    assert!(clients.is_empty());
    assert_eq!(CLIENT_TIMEOUT_MS, 10_000);
}

#[test]
fn dsu_server_slots_and_packets() {
    let mut srv = DsuServer::new();
    for s in 0..4 {
        assert_eq!(srv.pads[s].slot, s as u8);
        assert!(!srv.pads[s].connected);
    }
    srv.set_connected(5, true);
    assert!(srv.pads[1].connected);
    assert!(!srv.pads[0].connected);
    let mut data = Controller::default();
    data.buttons = pressed(&[Button::Y]);
    srv.update_controller(3, &data);
    assert_eq!(srv.pads[3].buttons, 1 << 15);
    assert_eq!(srv.pads[0].buttons, 0);

    let mut client = DsuClient::new(7);
    client.register(Registration::SlotBased, 2, 8);
    client.register(Registration::SlotBased, 0, 9);
    let sent = srv.stamp_for(&mut client);
    assert_eq!(sent, vec![0, 2]);
    assert_eq!(client.packet_count, 1);
    assert_eq!(srv.pads[0].packet_number, 1);
    assert_eq!(srv.pads[1].packet_number, 0);
    assert_eq!(srv.pads[2].packet_number, 1);
    let sent = srv.stamp_for(&mut client);
    assert_eq!(sent, vec![0, 2]);
    assert_eq!(srv.pads[2].packet_number, 2);
    assert_eq!(client.last_seen, 9);
    let mut idle = DsuClient::new(0);
    assert_eq!(srv.stamp_for(&mut idle), Vec::<usize>::new());
    assert_eq!(idle.packet_count, 1);
}
