use zinput::device::DeviceInfo;
use zinput::engine::DeviceRegistry;
use zinput::plugin::DeviceAlreadyExists;

fn named(name: &str, id: Option<&str>) -> DeviceInfo {
    let info = DeviceInfo::new(name.to_string());
    match id {
        Some(id) => info.with_id(id.to_string()),
        None => info,
    }
}

#[test]
fn devices_without_id_are_new() {
    let mut reg = DeviceRegistry::new();
    assert_eq!(reg.claim_with(named("a", None), 5), Ok((5, true)));
    assert_eq!(reg.claim_with(named("b", None), 6), Ok((6, true)));
    assert!(reg.holds(5) && reg.holds(6));
    assert_eq!(reg.uuids(), vec![5, 6]);
    assert_eq!(reg.info_of(6).map(|i| i.name.clone()), Some("b".to_string()));
    assert!(reg.info_of(7).is_none());
}

#[test]
fn held_device_is_exclusive() {
    let mut reg = DeviceRegistry::new();
    assert_eq!(reg.claim_with(named("pad", Some("serial-1")), 7), Ok((7, true)));
    assert_eq!(reg.claim_with(named("pad", Some("serial-1")), 8), Err(DeviceAlreadyExists));
    assert_eq!(reg.uuids(), vec![7]);
}

#[test]
fn let_go_device_is_reclaimed() {
    let mut reg = DeviceRegistry::new();
    assert_eq!(reg.claim_with(named("pad", Some("serial-1")), 7), Ok((7, true)));
    reg.drop_handle(7);
    assert!(!reg.holds(7));
    // nobody viewed it: it was dropped and comes back under the same id
    assert_eq!(reg.claim_with(named("pad again", Some("serial-1")), 9), Ok((7, true)));
    assert_eq!(reg.info_of(7).map(|i| i.name.clone()), Some("pad again".to_string()));

    // while it is viewed, the same device is handed back
    assert!(reg.open_view(7));
    assert!(reg.viewed(7));
    reg.drop_handle(7);
    assert_eq!(reg.claim_with(named("third", Some("serial-1")), 10), Ok((7, false)));
    assert_eq!(reg.info_of(7).map(|i| i.name.clone()), Some("pad again".to_string()));
}

#[test]
fn released_devices_are_dropped() {
    let mut reg = DeviceRegistry::new();
    reg.claim_with(named("a", None), 1).unwrap();
    reg.claim_with(named("b", None), 2).unwrap();
    assert!(reg.open_view(2));
    reg.drop_handle(1);
    reg.drop_handle(2);
    assert_eq!(reg.uuids(), vec![2]);
    reg.close_view(2);
    assert!(!reg.viewed(2));
    assert_eq!(reg.uuids(), Vec::<u128>::new());
    assert!(!reg.open_view(2));
}

#[test]
fn random_identifiers_for_new_devices() {
    let mut reg = DeviceRegistry::new();
    let (u, created) = reg.new_device(named("a", Some("x"))).unwrap();
    assert!(created);
    assert!(reg.holds(u));
    assert_eq!(reg.new_device(named("a", Some("x"))), Err(DeviceAlreadyExists));
    reg.drop_handle(u);
    assert_eq!(reg.new_device(named("a", Some("x"))), Ok((u, true)));
}
