use input_linux::{AbsoluteAxis, EventKind, Key, SynchronizeKind};
use zinput::backend::joycon::{
    parse_stick_calibration, stick_calibrations, CalibrationAction, CalibrationError, CalibrationReader, MemoryReadError,
};
use zinput::backend::sdl2::{HatState, Sdl2Action, SdlButton, SdlDevices, SdlEvent};
use zinput::component::controller::Button;
use zinput::frontend::dsus::{info_answers, ClientAddr, DataRequest, DsuClients, Registration};
use zinput::frontend::uinput;
use zinput::frontend::vigem::{target_plan, targets_for_update, TargetPlan};

fn reply(addr: u32, data: &[u8]) -> Vec<u8> {
    let mut r = vec![0x72];
    r.extend_from_slice(&addr.to_le_bytes());
    r.extend_from_slice(&(data.len() as u16).to_le_bytes());
    r.extend_from_slice(data);
    r.resize(32, 0);
    r
}

fn addr(port: u16) -> ClientAddr {
    ClientAddr { v6: false, ip: 0x7f00_0001, port }
}

#[test]
fn calibration_reads_in_order_then_done() {
    let mut reader = CalibrationReader::new();
    assert_eq!(reader.next_read(), Some((0xF800_8010, 0x16)));
    let user: Vec<u8> = (0..22).collect();
    let factory: Vec<u8> = (100..118).collect();
    match reader.step(Some(&reply(0xF800_8010, &user))) {
        CalibrationAction::Read { addr, size } => assert_eq!((addr, size), (0xF800_603D, 0x12)),
        other => panic!("unexpected {:?}", other),
    }
    match reader.step(Some(&reply(0xF800_603D, &factory))) {
        CalibrationAction::Read { addr, size } => assert_eq!((addr, size), (0xF800_6089, 2)),
        other => panic!("unexpected {:?}", other),
    }
    match reader.step(Some(&reply(0xF800_6089, &[1, 2]))) {
        CalibrationAction::Read { addr, size } => assert_eq!((addr, size), (0xF800_609B, 2)),
        other => panic!("unexpected {:?}", other),
    }
    assert_eq!(reader.next_read(), Some((0xF800_609B, 2)));
    match reader.step(Some(&reply(0xF800_609B, &[3, 4]))) {
        CalibrationAction::Done { user: u, factory: f, deadzone_l, deadzone_r } => {
            assert_eq!(u.to_vec(), user);
            assert_eq!(f.to_vec(), factory);
            assert_eq!(deadzone_l, [1, 2]);
            assert_eq!(deadzone_r, [3, 4]);
            let (l, r) = stick_calibrations(&u, &f, deadzone_l, deadzone_r);
            // no user data: both sticks use the factory data
            let fl: [u8; 9] = factory[..9].try_into().unwrap();
            let fr: [u8; 9] = factory[9..].try_into().unwrap();
            let el = parse_stick_calibration(fl, [1, 2], true);
            let er = parse_stick_calibration(fr, [3, 4], false);
            assert_eq!((l.center, l.omin, l.omax, l.deadzone), (el.center, el.omin, el.omax, el.deadzone));
            assert_eq!((r.center, r.omin, r.omax, r.deadzone), (er.center, er.omin, er.omax, er.deadzone));
            assert_eq!(l.deadzone, 0x201);
        }
        other => panic!("unexpected {:?}", other),
    }
    assert_eq!(reader.next_read(), None);
}

#[test]
fn calibration_stops_at_the_first_failed_read() {
    let mut reader = CalibrationReader::new();
    let user: Vec<u8> = vec![0; 22];
    assert!(matches!(reader.step(Some(&reply(0xF800_8010, &user))), CalibrationAction::Read { .. }));
    // the reply is for another address: the second read fails
    let wrong = reply(0xF800_0000, &[0; 18]);
    match reader.step(Some(&wrong)) {
        CalibrationAction::Failed(e) => assert_eq!(
            e,
            CalibrationError::Reply { read: 1, err: MemoryReadError::WrongAddress { addr: 0xF800_0000 } }
        ),
        other => panic!("unexpected {:?}", other),
    }
    // nothing was added: the second read is still the next one
    assert_eq!(reader.next_read(), Some((0xF800_603D, 0x12)));
    match reader.step(None) {
        CalibrationAction::Failed(e) => assert_eq!(e, CalibrationError::Device { read: 1 }),
        other => panic!("unexpected {:?}", other),
    }
}

#[test]
fn dsu_requests_register_one_entry_per_address() {
    let mut clients = DsuClients::new();
    clients.query_step(1_000, Some(DataRequest { addr: addr(1), registration: Registration::SlotBased, slot: 5 }));
    clients.query_step(2_000, Some(DataRequest { addr: addr(2), registration: Registration::AllControllers, slot: 0 }));
    clients.query_step(3_000, Some(DataRequest { addr: addr(1), registration: Registration::SlotBased, slot: 2 }));
    let list = clients.clients();
    assert_eq!(list.len(), 2);
    assert_eq!(list[0].0, addr(1));
    assert_eq!(list[0].1.slots, [false, true, true, false]);
    assert_eq!(list[0].1.last_seen, 3_000);
    assert_eq!(list[1].0, addr(2));
    assert_eq!(list[1].1.slots, [true; 4]);
    // a MAC-based request keeps the client alive but adds no slot
    clients.request(addr(2), Registration::MacBased, 0, 9_000);
    assert_eq!(clients.clients()[1].1.last_seen, 9_000);
    // at 13.5 s the first client (last seen at 3 s) is dropped before the request
    clients.query_step(13_500, Some(DataRequest { addr: addr(3), registration: Registration::MacBased, slot: 0 }));
    let list = clients.clients();
    assert_eq!(list.len(), 2);
    assert_eq!(list[0].0, addr(2));
    assert_eq!(list[1].0, addr(3));
    assert_eq!(list[1].1.slots, [false; 4]);
    assert_eq!(list[1].1.packet_count, 0);
    clients.query_step(30_000, None);
    assert!(clients.clients().is_empty());
}

#[test]
fn dsu_info_answers_follow_the_connected_slots() {
    let answers = info_answers(&[true, false, false, true], &vec![3, 1, 0]);
    assert_eq!(answers, vec![(3, true), (1, false), (0, true)]);
}

#[test]
fn sdl2_events_change_only_their_device() {
    let mut devs = SdlDevices::new();
    assert_eq!(
        devs.step(SdlEvent::JoyDeviceAdded { which: 4, controller: false, opened: Some(10) }),
        Sdl2Action::JoystickAdded { which: 4 }
    );
    assert_eq!(
        devs.step(SdlEvent::JoyDeviceAdded { which: 5, controller: false, opened: Some(2) }),
        Sdl2Action::JoystickAdded { which: 5 }
    );
    // a joystick that could not be opened, or is also a game controller, is not tracked
    assert_eq!(devs.step(SdlEvent::JoyDeviceAdded { which: 6, controller: false, opened: None }), Sdl2Action::Ignore);
    assert_eq!(devs.step(SdlEvent::JoyDeviceAdded { which: 7, controller: true, opened: Some(4) }), Sdl2Action::Ignore);
    assert!(devs.joystick(6).is_none() && devs.joystick(7).is_none());

    assert_eq!(
        devs.step(SdlEvent::JoyButton { which: 4, controller: false, button: 3, down: true }),
        Sdl2Action::Updated { which: 4 }
    );
    assert_eq!(devs.joystick(4).unwrap().buttons, 1 << 3);
    assert_eq!(devs.joystick(5).unwrap().buttons, 0);
    // hat 1 of joystick 4 starts at button 10 + 1
    assert_eq!(
        devs.step(SdlEvent::JoyHatMotion { which: 4, controller: false, hat: 1, state: HatState::LeftUp }),
        Sdl2Action::Updated { which: 4 }
    );
    assert_eq!(devs.joystick(4).unwrap().buttons, (1 << 3) | (1 << 11) | (1 << 13));
    assert_eq!(devs.step(SdlEvent::JoyButton { which: 9, controller: false, button: 0, down: true }), Sdl2Action::Ignore);
    assert_eq!(
        devs.step(SdlEvent::JoyAxisMotion { which: 5, controller: false, axis: 0, value: 7 }),
        Sdl2Action::JoystickAxis { which: 5 }
    );
    assert_eq!(
        devs.step(SdlEvent::JoyDeviceRemoved { which: 4, controller: false }),
        Sdl2Action::JoystickRemoved { which: 4 }
    );
    assert!(devs.joystick(4).is_none());
    assert_eq!(devs.joystick(5).unwrap().num_real_buttons, 2);

    assert_eq!(devs.step(SdlEvent::ControllerDeviceAdded { which: 1 }), Sdl2Action::GamepadAdded { which: 1 });
    assert_eq!(
        devs.step(SdlEvent::ControllerButton { which: 1, button: SdlButton::Guide, down: true }),
        Sdl2Action::Updated { which: 1 }
    );
    assert_eq!(devs.gamepad(1), Some(1u64 << Button::Home.bit()));
    assert_eq!(
        devs.step(SdlEvent::ControllerButton { which: 1, button: SdlButton::Paddle1, down: true }),
        Sdl2Action::Ignore
    );
    assert_eq!(devs.step(SdlEvent::ControllerAxisMotion { which: 2, axis: 0, value: 0 }), Sdl2Action::Ignore);
    assert_eq!(devs.step(SdlEvent::ControllerDeviceRemoved { which: 1 }), Sdl2Action::GamepadRemoved { which: 1 });
    assert_eq!(devs.gamepad(1), None);
    assert_eq!(devs.step(SdlEvent::Other), Sdl2Action::Fail);
}

#[test]
fn vigem_targets_follow_the_device_list() {
    assert!(matches!(target_plan(3, &vec![1, 2]), TargetPlan::Unplug { from: 2 }));
    match target_plan(1, &vec![7, 8, 9]) {
        TargetPlan::Plug { ids } => assert_eq!(ids, vec![8, 9]),
        other => panic!("unexpected {:?}", other),
    }
    assert!(matches!(target_plan(2, &vec![7, 8]), TargetPlan::Keep));
    assert_eq!(targets_for_update(&vec![5, 6, 5, 7], 5), vec![0, 2]);
    assert_eq!(targets_for_update(&vec![5, 6], 9), Vec::<usize>::new());
}

#[test]
fn uinput_codes_match_input_linux() {
    assert_eq!(uinput::EV_SYN, EventKind::Synchronize as u16);
    assert_eq!(uinput::EV_KEY, EventKind::Key as u16);
    assert_eq!(uinput::EV_ABS, EventKind::Absolute as u16);
    assert_eq!(uinput::SYN_REPORT, SynchronizeKind::Report as u16);
    assert_eq!(uinput::BTN_SOUTH, Key::ButtonSouth as u16);
    assert_eq!(uinput::BTN_EAST, Key::ButtonEast as u16);
    assert_eq!(uinput::BTN_NORTH, Key::ButtonNorth as u16);
    assert_eq!(uinput::BTN_WEST, Key::ButtonWest as u16);
    assert_eq!(uinput::BTN_TL, Key::ButtonTL as u16);
    assert_eq!(uinput::BTN_TR, Key::ButtonTR as u16);
    assert_eq!(uinput::BTN_TL2, Key::ButtonTL2 as u16);
    assert_eq!(uinput::BTN_TR2, Key::ButtonTR2 as u16);
    assert_eq!(uinput::BTN_SELECT, Key::ButtonSelect as u16);
    assert_eq!(uinput::BTN_START, Key::ButtonStart as u16);
    assert_eq!(uinput::BTN_MODE, Key::ButtonMode as u16);
    assert_eq!(uinput::BTN_THUMBL, Key::ButtonThumbl as u16);
    assert_eq!(uinput::BTN_THUMBR, Key::ButtonThumbr as u16);
    assert_eq!(uinput::BTN_DPAD_UP, Key::ButtonDpadUp as u16);
    assert_eq!(uinput::BTN_DPAD_DOWN, Key::ButtonDpadDown as u16);
    assert_eq!(uinput::BTN_DPAD_LEFT, Key::ButtonDpadLeft as u16);
    assert_eq!(uinput::BTN_DPAD_RIGHT, Key::ButtonDpadRight as u16);
    assert_eq!(uinput::ABS_X, AbsoluteAxis::X as u16);
    assert_eq!(uinput::ABS_Y, AbsoluteAxis::Y as u16);
    assert_eq!(uinput::ABS_Z, AbsoluteAxis::Z as u16);
    assert_eq!(uinput::ABS_RX, AbsoluteAxis::RX as u16);
    assert_eq!(uinput::ABS_RY, AbsoluteAxis::RY as u16);
    assert_eq!(uinput::ABS_RZ, AbsoluteAxis::RZ as u16);
}
