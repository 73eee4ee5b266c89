use pond::envelope::Envelope;
use pond::morphology::{build_urdf, Morphology};
use pond::registry::{DeviceDescriptor, DeviceKind};

const HEAD_ONLY: &str = "<robot name=\"frog\">\n  <link name=\"head\">\n    <visual>\n      <geometry>\n        <mesh filename=\"pkg://frog_description/meshes/head.obj\"/>\n      </geometry>\n    </visual>\n  </link>\n  <joint name=\"head_fixed\" type=\"fixed\">\n    <parent link=\"world\"/>\n    <child link=\"head\"/>\n  </joint>\n</robot>\n";

fn desc(id: &str) -> DeviceDescriptor {
    DeviceDescriptor {
        id: id.to_string(),
        kind: DeviceKind::Sensor,
        data_type: "float32".to_string(),
        tags: vec![],
    }
}

#[test]
fn urdf_of_the_head_alone() {
    assert_eq!(build_urdf(&vec!["head".to_string()]), HEAD_ONLY);
    assert_eq!(build_urdf(&vec![]), HEAD_ONLY);
}

#[test]
fn urdf_with_one_device() {
    let xml = build_urdf(&vec!["head".to_string(), "temp_sensor".to_string()]);
    let expected = HEAD_ONLY.replace(
        "</robot>\n",
        "  <link name=\"temp_sensor\"/>\n  <joint name=\"joint_temp_sensor\" type=\"fixed\">\n    <parent link=\"head\"/>\n    <child link=\"temp_sensor\"/>\n  </joint>\n</robot>\n",
    );
    assert_eq!(xml, expected);
}

#[test]
fn urdf_has_one_link_and_one_joint_for_each_device() {
    let xml = build_urdf(&vec!["head".to_string(), "a".to_string(), "b".to_string()]);
    assert_eq!(xml.matches("<link name=").count(), 3);
    assert_eq!(xml.matches("<joint name=").count(), 3);
    assert!(xml.contains("<child link=\"a\"/>"));
    assert!(xml.contains("<child link=\"b\"/>"));
}

#[test]
fn startup_publishes_the_first_description() {
    let (m, first) = Morphology::new();
    assert_eq!(first.topic, "/description/urdf");
    assert_eq!(first.data, HEAD_ONLY.as_bytes().to_vec());
    assert_eq!(m.devices(), &vec!["head".to_string()]);
}

#[test]
fn same_id_twice_gives_one_description() {
    let (mut m, _) = Morphology::new();
    let first = m.announce("temp_sensor".to_string());
    assert!(first.is_some());
    let again = m.announce("temp_sensor".to_string());
    assert!(again.is_none());
    let other = m.announce("fan".to_string());
    assert!(other.is_some());
    assert!(m.announce("temp_sensor".to_string()).is_none());
    assert_eq!(m.devices().len(), 3);
    assert!(m.knows("fan"));
    assert!(!m.knows("arm"));
}

#[test]
fn announcing_the_head_changes_nothing() {
    let (mut m, _) = Morphology::new();
    assert!(m.announce("head".to_string()).is_none());
    assert_eq!(m.devices().len(), 1);
}

#[test]
fn absorb_acts_on_decoded_announcements_only() {
    let (mut m, _) = Morphology::new();
    let announce = Envelope::new("/device/announce".to_string(), vec![1]);
    let other = Envelope::new("/sensor/x".to_string(), vec![1]);
    assert!(m.absorb(&announce, None).is_none());
    assert!(m.absorb(&other, Some(desc("x"))).is_none());
    let published = m.absorb(&announce, Some(desc("x"))).unwrap();
    assert_eq!(published.topic, "/description/urdf");
    let text = String::from_utf8(published.data).unwrap();
    assert_eq!(text, build_urdf(&vec!["head".to_string(), "x".to_string()]));
    assert!(m.absorb(&announce, Some(desc("x"))).is_none());
}
