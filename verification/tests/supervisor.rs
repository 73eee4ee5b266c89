use pond::debug_mode::{preview, Preview};
use pond::envelope::{is_sensor_topic, starts_with, text_eq};
use pond::map::{Layer, TileBlob, TileId};
use pond::mesh_store::resolve;
use pond::mode::{Mode, ModeChoice};
use pond::schedule::{Schedule, DREAM_PERIOD_MS, PLAN_PERIOD_MS, REFLEX_PERIOD_MS};
use pond::vision::{shared, CameraModel, GpuContext, RgbFrame, Timestamp};

#[test]
fn mode_names_select_modes() {
    assert_eq!(Mode::select("awake"), ModeChoice { mode: Mode::Awake, recognized: true });
    assert_eq!(Mode::select(""), ModeChoice { mode: Mode::Awake, recognized: true });
    assert_eq!(Mode::select("dream"), ModeChoice { mode: Mode::Dream, recognized: true });
    assert_eq!(Mode::select("debug"), ModeChoice { mode: Mode::Debug, recognized: true });
    assert_eq!(Mode::select("DeBuG"), ModeChoice { mode: Mode::Debug, recognized: true });
    assert_eq!(Mode::select("AWAKE"), ModeChoice { mode: Mode::Awake, recognized: true });
}

#[test]
fn unknown_mode_falls_back_to_awake() {
    for v in ["sleep", "awake ", "dreams", "d\u{e9}bug", "\u{212a}"] {
        assert_eq!(Mode::select(v), ModeChoice { mode: Mode::Awake, recognized: false }, "{}", v);
    }
}

#[test]
fn modes_run_their_loops() {
    let a = Mode::Awake.loops();
    assert!(a.reflex && a.morphology && a.planner && !a.dream && !a.debug);
    let d = Mode::Dream.loops();
    assert!(!d.reflex && !d.morphology && !d.planner && d.dream && !d.debug);
    let g = Mode::Debug.loops();
    assert!(!g.reflex && !g.morphology && !g.planner && !g.dream && g.debug);
}

#[test]
fn deadlines_add_up_without_drift() {
    let mut s = Schedule::starting_at(1000, REFLEX_PERIOD_MS);
    assert_eq!(s.next, 1020);
    assert!(!s.is_due(1019));
    assert!(s.is_due(1020));
    assert!(s.is_due(5000));
    for _ in 0..50 {
        s.advance();
    }
    assert_eq!(s.next, 1020 + 50 * 20);
    assert_eq!(s.period, 20);
    assert_eq!(PLAN_PERIOD_MS, 5000);
    assert_eq!(DREAM_PERIOD_MS, 5000);
}

#[test]
fn deadlines_stop_at_the_last_time() {
    let mut s = Schedule::starting_at(u64::MAX - 5, 20);
    assert_eq!(s.next, u64::MAX);
    s.advance();
    assert_eq!(s.next, u64::MAX);
}

#[test]
fn previews() {
    match preview(&b"hello".to_vec()) {
        Preview::Text(t) => assert_eq!(t, "hello"),
        other => panic!("{:?}", other),
    }
    match preview(&vec![0xc3, 0xa9]) {
        Preview::Text(t) => assert_eq!(t, "\u{e9}"),
        other => panic!("{:?}", other),
    }
    match preview(&vec![0xff, 0x00]) {
        Preview::Bytes(b) => assert_eq!(b, vec![0xff, 0x00]),
        other => panic!("{:?}", other),
    }
    match preview(&vec![b'a'; 64]) {
        Preview::Text(t) => assert_eq!(t.len(), 64),
        other => panic!("{:?}", other),
    }
    match preview(&vec![b'a'; 65]) {
        Preview::Size(n) => assert_eq!(n, 65),
        other => panic!("{:?}", other),
    }
    match preview(&vec![]) {
        Preview::Text(t) => assert_eq!(t, ""),
        other => panic!("{:?}", other),
    }
}

#[test]
fn text_helpers() {
    assert!(text_eq("/goal", "/goal"));
    assert!(!text_eq("/goal", "/goals"));
    assert!(!text_eq("/goal", "/goaL"));
    assert!(text_eq("", ""));
    assert!(text_eq("\u{2208}x", "\u{2208}x"));
    assert!(starts_with("/sensor/temp", "/sensor/"));
    assert!(starts_with("abc", ""));
    assert!(!starts_with("/sensor", "/sensor/"));
    assert!(!starts_with("/Sensor/x", "/sensor/"));
    assert!(is_sensor_topic("/sensor/"));
    assert!(!is_sensor_topic("/actuator/fan"));
}

#[test]
fn mesh_paths() {
    assert_eq!(resolve("pkg://frog_description/meshes/head.obj"), "assets/frog_description/meshes/head.obj");
    assert_eq!(resolve("meshes/head.obj"), "meshes/head.obj");
    assert_eq!(resolve("/abs/head.obj"), "/abs/head.obj");
    assert_eq!(resolve("pkg://"), "assets/");
    assert_eq!(resolve("pkg:///abs/head.obj"), "/abs/head.obj");
    assert_eq!(resolve("pkg:/x"), "pkg:/x");
    assert_eq!(resolve(""), "");
    for uri in ["pkg://a/b.obj", "pkg:///abs", "pkg://", "x/y"] {
        let expected = match uri.strip_prefix("pkg://") {
            Some(rest) => std::path::PathBuf::from("assets/").join(rest),
            None => std::path::PathBuf::from(uri),
        };
        assert_eq!(std::path::PathBuf::from(resolve(uri)), expected);
    }
}

#[test]
fn camera_names() {
    assert_eq!(CameraModel::OakDS2.as_str(), "OAK-D-S2");
    assert_eq!(CameraModel::OakDProW.as_str(), "OAK-D Pro-W");
    assert_eq!(CameraModel::Gemini2XL.as_str(), "Gemini 2 XL");
    assert_eq!(CameraModel::ALL.len(), 3);
    assert_eq!(CameraModel::ALL[2], CameraModel::Gemini2XL);
}

#[test]
fn shared_wraps_the_value() {
    let h = shared(RgbFrame { t: 7, data: vec![1, 2, 3] });
    assert_eq!(h.t, 7);
    assert_eq!(h.data, vec![1, 2, 3]);
    let g = shared(GpuContext::default());
    assert_eq!(std::sync::Arc::strong_count(&g), 1);
    assert_eq!(shared(Timestamp { t: 5 }).t, 5);
}

#[test]
fn map_types_hold_their_fields() {
    let id = TileId { lod: 2, x: -1, y: 0, z: 3, layer: Layer::Mesh };
    let copy = id.clone();
    assert_eq!((copy.lod, copy.x, copy.y, copy.z, copy.layer), (2, -1, 0, 3, Layer::Mesh));
    assert_eq!(TileBlob { data: vec![1] }.data, vec![1]);
}
