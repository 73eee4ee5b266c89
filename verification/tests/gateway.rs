use pond::bus::{Bus, Recv};
use pond::gateway::Gateway;
use pond::registry::{DeviceDescriptor, DeviceKind, DeviceRegistry};

fn desc(id: &str, kind: DeviceKind, data_type: &str, tags: &[&str]) -> DeviceDescriptor {
    DeviceDescriptor {
        id: id.to_string(),
        kind,
        data_type: data_type.to_string(),
        tags: tags.iter().map(|t| t.to_string()).collect(),
    }
}

#[test]
fn goal_read_after_write() {
    let mut bus = Bus::new(16);
    let mut gw = Gateway::new();
    let mut sub = gw.subscribe(&bus);
    assert_eq!(gw.get_goal(), "");
    assert!(gw.set_goal(&mut bus, "X".to_string()));
    assert_eq!(gw.get_goal(), "X");
    match bus.try_recv(&mut sub) {
        Recv::Envelope(e) => {
            assert_eq!(e.topic, "/goal");
            assert_eq!(e.data, b"X".to_vec());
        }
        other => panic!("expected the goal envelope, got {:?}", other),
    }
}

#[test]
fn goal_is_replaced_as_a_whole() {
    let mut bus = Bus::new(16);
    let mut gw = Gateway::new();
    gw.set_goal(&mut bus, "cool the room".to_string());
    gw.set_goal(&mut bus, "gr\u{fc}n".to_string());
    assert_eq!(gw.get_goal(), "gr\u{fc}n");
    assert_eq!(bus.published(), 2);
}

#[test]
fn publish_forwards_and_files_announcements() {
    let mut bus = Bus::new(16);
    let mut gw = Gateway::new();
    let mut sub = gw.subscribe(&bus);
    assert!(Gateway::is_announcement("/device/announce"));
    assert!(!Gateway::is_announcement("/device/announce/x"));
    let d = desc("temp_sensor", DeviceKind::Sensor, "float32", &["temperature"]);
    assert!(gw.publish(&mut bus, "/device/announce".to_string(), vec![1, 2, 3], Some(d)));
    assert!(gw.publish(&mut bus, "/sensor/temp_sensor".to_string(), vec![0, 0, 160, 65], None));
    let devices = gw.get_devices();
    assert_eq!(devices.len(), 1);
    assert_eq!(devices[0].id, "temp_sensor");
    assert_eq!(devices[0].kind, DeviceKind::Sensor);
    assert_eq!(devices[0].data_type, "float32");
    assert_eq!(devices[0].tags, vec!["temperature".to_string()]);
    let first = gw.next_envelope(&bus, &mut sub).unwrap();
    assert_eq!(first.topic, "/device/announce");
    assert_eq!(first.data, vec![1, 2, 3]);
    let second = gw.next_envelope(&bus, &mut sub).unwrap();
    assert_eq!(second.topic, "/sensor/temp_sensor");
    assert!(gw.next_envelope(&bus, &mut sub).is_none());
}

#[test]
fn publish_with_undecodable_announcement_still_forwards() {
    let mut bus = Bus::new(16);
    let mut gw = Gateway::new();
    assert!(gw.publish(&mut bus, "/device/announce".to_string(), vec![255], None));
    assert_eq!(gw.get_devices().len(), 0);
    assert_eq!(bus.published(), 1);
}

#[test]
fn descriptor_on_another_topic_is_not_filed() {
    let mut bus = Bus::new(16);
    let mut gw = Gateway::new();
    let d = desc("fan", DeviceKind::Actuator, "float32", &[]);
    gw.publish(&mut bus, "/log/x".to_string(), vec![], Some(d));
    assert_eq!(gw.get_devices().len(), 0);
}

#[test]
fn reannounce_keeps_one_descriptor_last_write_wins() {
    let mut bus = Bus::new(16);
    let mut gw = Gateway::new();
    gw.publish(
        &mut bus,
        "/device/announce".to_string(),
        vec![],
        Some(desc("fan", DeviceKind::Actuator, "float32", &["a"])),
    );
    gw.publish(
        &mut bus,
        "/device/announce".to_string(),
        vec![],
        Some(desc("fan", DeviceKind::Other, "int64", &["b", "c"])),
    );
    let devices = gw.get_devices();
    assert_eq!(devices.len(), 1);
    assert_eq!(devices[0].kind, DeviceKind::Other);
    assert_eq!(devices[0].data_type, "int64");
    assert_eq!(devices[0].tags.len(), 2);
}

#[test]
fn stream_skips_over_a_gap() {
    let mut bus = Bus::new(2);
    let mut gw = Gateway::new();
    let mut sub = gw.subscribe(&bus);
    for i in 0..5u8 {
        gw.publish(&mut bus, "/x".to_string(), vec![i], None);
    }
    assert_eq!(gw.next_envelope(&bus, &mut sub).unwrap().data, vec![3]);
    assert_eq!(gw.next_envelope(&bus, &mut sub).unwrap().data, vec![4]);
    assert!(gw.next_envelope(&bus, &mut sub).is_none());
}

#[test]
fn registry_announce_reports_fresh_ids() {
    let mut reg = DeviceRegistry::new();
    assert!(reg.announce(desc("a", DeviceKind::Sensor, "float32", &[])));
    assert!(reg.announce(desc("b", DeviceKind::Actuator, "float32", &[])));
    assert!(!reg.announce(desc("a", DeviceKind::Other, "bytes", &[])));
    let mut ids: Vec<String> = reg.snapshot().into_iter().map(|d| d.id).collect();
    ids.sort();
    assert_eq!(ids, vec!["a".to_string(), "b".to_string()]);
}
