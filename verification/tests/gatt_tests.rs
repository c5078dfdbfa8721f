use ble_telemetry::gatt::{
    explore_gatt_profile, find_characteristic_path, get_characteristic_path, has_notify_flag,
    DecodedValue, GattCharacteristic, GattDescriptor, GattService, WalkStage,
};
use ble_telemetry::CoreError;

fn uuid(prefix: &str) -> String {
    format!("0000{}-0000-1000-8000-00805f9b34fb", prefix)
}

fn characteristic(path: &str, prefix: &str, flags: &[&str]) -> GattCharacteristic {
    GattCharacteristic {
        path: path.to_string(),
        uuid: uuid(prefix),
        flags: flags.iter().map(|f| f.to_string()).collect(),
        descriptors: Some(Vec::new()),
    }
}

fn service(path: &str, prefix: &str, chars: Vec<GattCharacteristic>) -> GattService {
    GattService { path: path.to_string(), uuid: uuid(prefix), characteristics: Some(chars) }
}

#[test]
fn finder_returns_first_notify_characteristic_in_order() {
    let tree = vec![
        service(
            "/dev/service0010",
            "180d",
            vec![
                characteristic("/dev/service0010/char0011", "2a00", &["read"]),
                characteristic("/dev/service0010/char0012", "2a37", &["read", "notify"]),
            ],
        ),
        service(
            "/dev/service0020",
            "181a",
            vec![characteristic("/dev/service0020/char0021", "2a38", &["notify"])],
        ),
    ];
    let r = find_characteristic_path(&tree);
    assert_eq!(r.unwrap(), "/dev/service0010/char0012");
}

#[test]
fn finder_skips_service_without_characteristic_list() {
    let mut broken = service("/dev/service0010", "180d", Vec::new());
    broken.characteristics = None;
    let tree = vec![
        broken,
        service(
            "/dev/service0020",
            "181a",
            vec![characteristic("/dev/service0020/char0021", "2a38", &["indicate", "notify"])],
        ),
    ];
    let r = find_characteristic_path(&tree);
    assert_eq!(r.unwrap(), "/dev/service0020/char0021");
}

#[test]
fn finder_reports_absence() {
    let tree = vec![
        service(
            "/dev/service0010",
            "180d",
            vec![characteristic("/dev/service0010/char0011", "2a00", &["read", "write"])],
        ),
    ];
    assert!(find_characteristic_path(&tree).is_none());
}

#[test]
fn finder_on_empty_tree() {
    let tree: Vec<GattService> = Vec::new();
    assert!(find_characteristic_path(&tree).is_none());
}

#[test]
fn notify_flag_search() {
    let with: Vec<String> = vec!["read".to_string(), "notify".to_string()];
    let without: Vec<String> = vec!["read".to_string(), "indicate".to_string()];
    assert!(has_notify_flag(&with));
    assert!(!has_notify_flag(&without));
}

#[test]
fn characteristic_path_of_notify_capable() {
    let c = characteristic("/dev/service0010/char0012", "2a37", &["notify"]);
    assert_eq!(get_characteristic_path(&c).unwrap(), "/dev/service0010/char0012");
    let c2 = characteristic("/dev/service0010/char0011", "2a00", &["read"]);
    assert!(get_characteristic_path(&c2).is_none());
}

#[test]
fn explorer_builds_inventory_with_assigned_numbers() {
    let tree = vec![
        service(
            "/dev/service0010",
            "180d",
            vec![characteristic("/dev/service0010/char0012", "2a37", &["read", "notify"])],
        ),
    ];
    let inv = explore_gatt_profile(Some(tree));
    assert!(inv.diagnostics.is_empty());
    assert_eq!(inv.services.len(), 1);
    assert_eq!(inv.services[0].assigned_number, "0000180d");
    assert_eq!(inv.services[0].characteristics.len(), 1);
    let c = &inv.services[0].characteristics[0];
    assert_eq!(c.assigned_number, "00002a37");
    assert_eq!(c.path, "/dev/service0010/char0012");
    assert_eq!(c.flags, vec!["read".to_string(), "notify".to_string()]);
}

#[test]
fn explorer_decodes_user_description_as_text() {
    let mut c = characteristic("/dev/service0010/char0012", "2a37", &["notify"]);
    c.descriptors = Some(vec![
        GattDescriptor {
            path: "/dev/service0010/char0012/desc0013".to_string(),
            uuid: uuid("2901"),
            value: "temperatura \u{00BA}C".as_bytes().to_vec(),
        },
        GattDescriptor {
            path: "/dev/service0010/char0012/desc0014".to_string(),
            uuid: uuid("2902"),
            value: vec![1, 0],
        },
    ]);
    let inv = explore_gatt_profile(Some(vec![service("/dev/service0010", "180d", vec![c])]));
    assert!(inv.diagnostics.is_empty());
    let descs = &inv.services[0].characteristics[0].descriptors;
    assert_eq!(descs.len(), 2);
    assert_eq!(descs[0].assigned_number, "00002901");
    match &descs[0].value {
        DecodedValue::Text(t) => assert_eq!(t, "temperatura \u{00BA}C"),
        DecodedValue::Raw(_) => panic!("2901 descriptor must decode as text"),
    }
    match &descs[1].value {
        DecodedValue::Raw(v) => assert_eq!(v, &vec![1u8, 0u8]),
        DecodedValue::Text(_) => panic!("non-2901 descriptor must stay raw"),
    }
}

#[test]
fn explorer_keeps_invalid_user_description_raw() {
    let mut c = characteristic("/dev/service0010/char0012", "2a37", &["notify"]);
    c.descriptors = Some(vec![GattDescriptor {
        path: "/dev/service0010/char0012/desc0013".to_string(),
        uuid: uuid("2901"),
        value: vec![0xff, 0xfe],
    }]);
    let inv = explore_gatt_profile(Some(vec![service("/dev/service0010", "180d", vec![c])]));
    match &inv.services[0].characteristics[0].descriptors[0].value {
        DecodedValue::Raw(v) => assert_eq!(v, &vec![0xffu8, 0xfeu8]),
        DecodedValue::Text(_) => panic!("invalid UTF-8 must stay raw"),
    }
}

#[test]
fn explorer_reports_service_list_failure() {
    let inv = explore_gatt_profile(None);
    assert!(inv.services.is_empty());
    assert_eq!(inv.diagnostics.len(), 1);
    assert_eq!(inv.diagnostics[0].stage, WalkStage::Services);
    assert_eq!(inv.diagnostics[0].error, CoreError::GattWalkFailed);
    assert_eq!(inv.diagnostics[0].path, "");
}

#[test]
fn explorer_reports_malformed_uuid_and_continues() {
    let tree = vec![
        GattService {
            path: "/dev/service0010".to_string(),
            uuid: "garbage".to_string(),
            characteristics: Some(Vec::new()),
        },
        service("/dev/service0020", "181a", Vec::new()),
    ];
    let inv = explore_gatt_profile(Some(tree));
    assert_eq!(inv.services.len(), 1);
    assert_eq!(inv.services[0].assigned_number, "0000181a");
    assert_eq!(inv.diagnostics.len(), 1);
    assert_eq!(inv.diagnostics[0].stage, WalkStage::Services);
    assert_eq!(inv.diagnostics[0].error, CoreError::MalformedUuid);
    assert_eq!(inv.diagnostics[0].path, "/dev/service0010");
}

#[test]
fn explorer_reports_characteristic_list_failure_but_keeps_service() {
    let mut s = service("/dev/service0010", "180d", Vec::new());
    s.characteristics = None;
    let inv = explore_gatt_profile(Some(vec![s]));
    assert_eq!(inv.services.len(), 1);
    assert_eq!(inv.services[0].assigned_number, "0000180d");
    assert!(inv.services[0].characteristics.is_empty());
    assert_eq!(inv.diagnostics.len(), 1);
    assert_eq!(inv.diagnostics[0].stage, WalkStage::Characteristics);
    assert_eq!(inv.diagnostics[0].error, CoreError::GattWalkFailed);
}

#[test]
fn explorer_reports_descriptor_list_failure_but_keeps_characteristic() {
    let mut c = characteristic("/dev/service0010/char0012", "2a37", &["notify"]);
    c.descriptors = None;
    let inv = explore_gatt_profile(Some(vec![service("/dev/service0010", "180d", vec![c])]));
    assert_eq!(inv.services[0].characteristics.len(), 1);
    assert!(inv.services[0].characteristics[0].descriptors.is_empty());
    assert_eq!(inv.diagnostics.len(), 1);
    assert_eq!(inv.diagnostics[0].stage, WalkStage::Descriptors);
    assert_eq!(inv.diagnostics[0].error, CoreError::GattWalkFailed);
    assert_eq!(inv.diagnostics[0].path, "/dev/service0010/char0012");
}
