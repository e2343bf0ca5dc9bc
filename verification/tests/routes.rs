use zinput::routes::{RecvDest, Routes};

fn d(device: u128, view: usize) -> RecvDest {
    RecvDest { device, view }
}

#[test]
fn inserted_devices_are_routed() {
    let mut routes = Routes::new();
    routes.insert(10, &[1, 2, 1]);
    assert_eq!(routes.dests_of(1), vec![d(10, 0), d(10, 2)]);
    assert_eq!(routes.dests_of(2), vec![d(10, 1)]);
    assert_eq!(routes.dests_of(3), vec![]);
    routes.insert(11, &[2]);
    assert_eq!(routes.dests_of(2), vec![d(10, 1), d(11, 0)]);
}

#[test]
fn removed_devices_are_not_routed() {
    let mut routes = Routes::new();
    routes.insert(10, &[1, 2]);
    routes.insert(11, &[2]);
    routes.remove(10);
    assert_eq!(routes.dests_of(1), vec![]);
    assert_eq!(routes.dests_of(2), vec![d(11, 0)]);
    routes.remove(99);
    assert_eq!(routes.dests_of(2), vec![d(11, 0)]);
}

#[test]
fn removal_moves_the_last_destination_into_place() {
    let mut routes = Routes::new();
    routes.insert(10, &[5]);
    routes.insert(11, &[5]);
    routes.insert(10, &[7, 5]);
    routes.insert(12, &[5]);
    assert_eq!(routes.dests_of(5), vec![d(10, 0), d(11, 0), d(10, 1), d(12, 0)]);
    routes.remove(10);
    assert_eq!(routes.dests_of(5), vec![d(12, 0), d(11, 0)]);
    assert_eq!(routes.dests_of(7), vec![]);
}
