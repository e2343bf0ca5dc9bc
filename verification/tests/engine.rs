use std::collections::HashMap;
use zinput::component::controller::{Analog, Button, ControllerInfo};
use zinput::component::motion::MotionInfo;
use zinput::component::ComponentKind;
use zinput::device::DeviceInfo;
use zinput::editor::Editor;
use zinput::event::{dispatch_table, Event, EventKind, NUM_INDICES};
use zinput::plugin::{ComponentUpdateError, DeviceAlreadyExists, PluginKind, PluginStatus};
use zinput::virt::{verify_program, DeviceReq, VDeviceHandle, VerificationError};

#[test]
fn event_kinds_and_slots() {
    let id = uuid::Uuid::from_u128(7);
    assert_eq!(Event::DeviceUpdate(id).kind(), EventKind::DeviceUpdate);
    assert_eq!(Event::DeviceRemoved(id).to_index(), Some(2));
    assert_eq!(Event::DeviceAdded(id, DeviceInfo::new("d".to_string())).to_index(), Some(1));
    assert_eq!(Event::UsbConnected.to_index(), None);
    assert_eq!(EventKind::UsbDisconnected.to_index(), None);
    assert_eq!(EventKind::DeviceUpdate.to_index(), Some(0));
    let cloned = Event::DeviceUpdate(id).clone();
    match cloned {
        Event::DeviceUpdate(u) => assert_eq!(u, id),
        _ => panic!("clone changed the event"),
    }
}

#[test]
fn dispatch_table_routes_by_kind() {
    let plugins = vec![
        vec![EventKind::DeviceUpdate, EventKind::UsbConnected],
        vec![EventKind::DeviceAdded, EventKind::DeviceUpdate, EventKind::DeviceUpdate],
        vec![],
    ];
    let table = dispatch_table(&plugins);
    assert_eq!(table.len(), NUM_INDICES);
    assert_eq!(table[0], vec![0, 1, 1]);
    assert_eq!(table[1], vec![1]);
    assert_eq!(table[2], Vec::<usize>::new());
}

#[test]
fn plugin_texts() {
    assert_eq!(PluginStatus::Running.to_string(), "running");
    assert_eq!(PluginStatus::Stopped.to_string(), "stopped");
    assert_eq!(PluginStatus::Error("boom".to_string()).to_string(), "error: boom");
    assert_eq!(PluginKind::Backend.to_string(), "backend");
    assert_eq!(PluginKind::Custom("virtual".to_string()).to_string(), "custom: virtual");
    assert_eq!(DeviceAlreadyExists.to_string(), "device already exists");
    assert_eq!(ComponentUpdateError::InvalidDeviceId.to_string(), "invalid device id");
    assert_eq!(ComponentUpdateError::InvalidIndex.to_string(), "invalid index");
}

#[test]
fn device_info_builders() {
    let info = DeviceInfo::new("pad".to_string()).with_id("abc".to_string()).autoload_config(true);
    assert_eq!(info.name, "pad");
    assert_eq!(info.id.as_deref(), Some("abc"));
    assert!(info.autoload_config);
    let mut info = info;
    assert_eq!(info.add_controller(ControllerInfo::default()), 0);
    assert_eq!(info.add_controller(ControllerInfo::default()), 1);
    assert_eq!(info.add_motion(MotionInfo::default()), 0);
    assert_eq!(info.count(ComponentKind::Controller), 2);
    assert_eq!(info.count(ComponentKind::Motion), 1);
    assert_eq!(info.count(ComponentKind::Mouse), 0);
}

fn req(pairs: &[(ComponentKind, usize)]) -> DeviceReq {
    let mut components = HashMap::new();
    for (k, n) in pairs {
        components.insert(k.index(), *n);
    }
    DeviceReq { components }
}

#[test]
fn program_requirements() {
    let mut pad = DeviceInfo::new("pad".to_string());
    pad.add_controller(ControllerInfo::default());
    let r = req(&[(ComponentKind::Controller, 1)]);
    assert_eq!(r.required(ComponentKind::Controller), 1);
    assert_eq!(r.required(ComponentKind::Motion), 0);
    assert_eq!(r.verify(0, &pad), Ok(()));
    assert_eq!(verify_program(&vec![req(&[(ComponentKind::Controller, 1)])], &vec![pad.clone()]), Ok(()));

    let empty = DeviceInfo::new("empty".to_string());
    let err = verify_program(&vec![req(&[]), req(&[(ComponentKind::Controller, 1)])], &vec![empty.clone(), empty.clone()]);
    assert_eq!(
        err,
        Err(VerificationError::InvalidComponentAmount { device_index: 1, kind: ComponentKind::Controller, need: 1, got: 0 })
    );
    assert_eq!(
        err.unwrap_err().to_string(),
        "invalid number of Controller components for device index 1 (need 1, got 0)"
    );

    let err = verify_program(&vec![req(&[]), req(&[])], &vec![empty.clone()]);
    assert_eq!(err, Err(VerificationError::InvalidDeviceAmount { need: 2, got: 1 }));
    assert_eq!(err.unwrap_err().to_string(), "invalid number of devices (need 2, got 1)");

    // the first kind that differs is reported
    let r = req(&[(ComponentKind::TouchPad, 2), (ComponentKind::Motion, 1)]);
    assert_eq!(
        r.verify(4, &empty),
        Err(VerificationError::InvalidComponentAmount { device_index: 4, kind: ComponentKind::Motion, need: 1, got: 0 })
    );
}

#[test]
fn virtual_device_handles_copy() {
    let h = VDeviceHandle(uuid::Uuid::from_u128(3));
    let c = h;
    assert_eq!(h.0, c.0);
}

#[test]
fn editor_toggles_the_controller() {
    let mut info = DeviceInfo::new("virtual".to_string());
    info.add_controller(ControllerInfo::default());
    let editor = Editor::new(0);
    assert!(editor.toggle_button(&mut info, Button::X));
    assert!(info.controllers[0].has_button(Button::X));
    assert!(editor.toggle_button(&mut info, Button::X));
    assert!(!info.controllers[0].has_button(Button::X));
    assert!(editor.toggle_analog(&mut info, Analog::L2));
    assert_eq!(info.controllers[0].analogs, 1 << 4);
    let missing = Editor::new(1);
    assert!(!missing.toggle_button(&mut info, Button::A));
    assert!(!missing.toggle_analog(&mut info, Analog::L2));
    assert_eq!(info.controllers.len(), 1);
}
