use ble_telemetry::driver::{
    step, Action, CharMode, Command, Config, DeviceInfo, Event, HostEvent, Phase, TargetMode,
    select_target,
};
use ble_telemetry::gatt::{GattCharacteristic, GattService};

fn cfg_path_auto() -> Config {
    Config::with_target(
        TargetMode::Path("/org/bluez/hci0/dev_AA".to_string()),
        CharMode::Auto,
    )
}

fn tree_with_notify() -> Vec<GattService> {
    vec![GattService {
        path: "/org/bluez/hci0/dev_AA/service0023".to_string(),
        uuid: "0000181a-0000-1000-8000-00805f9b34fb".to_string(),
        characteristics: Some(vec![GattCharacteristic {
            path: "/org/bluez/hci0/dev_AA/service0023/char0024".to_string(),
            uuid: "00002a37-0000-1000-8000-00805f9b34fb".to_string(),
            flags: vec!["notify".to_string()],
            descriptors: Some(Vec::new()),
        }]),
    }]
}

fn value_event(path: &str, payload: &str) -> HostEvent {
    HostEvent::Value { object_path: path.to_string(), value: payload.as_bytes().to_vec() }
}

fn info_of(a: &Action) -> &str {
    match a {
        Action::PublishInfo(s) => s.as_str(),
        _ => panic!("expected an info publication"),
    }
}

/// Drives a fresh machine through the happy path up to the notifying phase.
fn drive_to_notifying(cfg: &Config) -> Phase {
    let (s, acts) = step(Phase::Idle, cfg, Event::Cmd(Command::Start));
    assert!(matches!(acts[..], [Action::SetPowered]));
    let (s, acts) = step(s, cfg, Event::PowerOk);
    assert!(matches!(acts[..], [Action::StartDiscovery]));
    let (s, acts) = step(s, cfg, Event::DiscoveryStarted);
    assert!(matches!(acts[..], [Action::Sleep(1000)]));
    let (s, acts) = step(s, cfg, Event::ScanElapsed);
    assert!(matches!(acts[..], [Action::StopDiscovery, Action::ListDevices]));
    let (s, acts) = step(s, cfg, Event::Devices(Vec::new()));
    assert!(
        matches!(&acts[..], [Action::Connect { path, timeout_ms: 10000 }] if path == "/org/bluez/hci0/dev_AA")
    );
    let (s, acts) = step(s, cfg, Event::ConnectOk);
    assert_eq!(acts.len(), 2);
    assert_eq!(info_of(&acts[0]), "Status: Connecting ...");
    assert!(matches!(acts[1], Action::Sleep(5000)));
    let (s, acts) = step(s, cfg, Event::Settled);
    assert!(matches!(acts[..], [Action::FetchGatt]));
    let (s, acts) = step(s, cfg, Event::GattTree(Some(tree_with_notify())));
    assert!(
        matches!(&acts[..], [Action::StartNotify(p)] if p == "/org/bluez/hci0/dev_AA/service0023/char0024")
    );
    let (s, acts) = step(s, cfg, Event::NotifyOk);
    assert_eq!(acts.len(), 2);
    assert_eq!(info_of(&acts[0]), "Status: Triggered notification");
    assert!(matches!(acts[1], Action::Poll(1000)));
    assert!(matches!(s, Phase::Notifying { .. }));
    s
}

#[test]
fn no_adapter_publishes_status_and_returns_to_idle() {
    let cfg = cfg_path_auto();
    let (s, _) = step(Phase::Idle, &cfg, Event::Cmd(Command::Start));
    let (s, acts) = step(s, &cfg, Event::PowerFailed);
    assert_eq!(acts.len(), 1);
    assert_eq!(info_of(&acts[0]), "Status: AdapterUnavailable");
    assert!(matches!(s, Phase::Idle));
    // Start is enabled again.
    let (_, acts) = step(s, &cfg, Event::Cmd(Command::Start));
    assert!(matches!(acts[..], [Action::SetPowered]));
}

#[test]
fn discovery_failure_still_closes_the_session() {
    let cfg = cfg_path_auto();
    let (s, _) = step(Phase::Idle, &cfg, Event::Cmd(Command::Start));
    let (s, _) = step(s, &cfg, Event::PowerOk);
    let (s, acts) = step(s, &cfg, Event::DiscoveryStartFailed);
    assert_eq!(acts.len(), 2);
    assert!(matches!(acts[0], Action::StopDiscovery));
    assert_eq!(info_of(&acts[1]), "Status: DiscoveryFailed");
    assert!(matches!(s, Phase::Idle));
}

#[test]
fn connect_failure_is_silent_and_returns_to_idle() {
    let cfg = cfg_path_auto();
    let (s, _) = step(Phase::Idle, &cfg, Event::Cmd(Command::Start));
    let (s, _) = step(s, &cfg, Event::PowerOk);
    let (s, _) = step(s, &cfg, Event::DiscoveryStarted);
    let (s, _) = step(s, &cfg, Event::ScanElapsed);
    let (s, _) = step(s, &cfg, Event::Devices(Vec::new()));
    let (s, acts) = step(s, &cfg, Event::ConnectFailed);
    // The info line stays unchanged and no notification is started.
    assert!(acts.is_empty());
    assert!(matches!(s, Phase::Idle));
    let (_, acts) = step(s, &cfg, Event::Cmd(Command::Start));
    assert!(matches!(acts[..], [Action::SetPowered]));
}

#[test]
fn happy_path_publishes_samples_in_arrival_order() {
    let cfg = cfg_path_auto();
    let s = drive_to_notifying(&cfg);
    let path = "/org/bluez/hci0/dev_AA/service0023/char0024";
    let batch = vec![
        value_event(path, r#"{"Rumqtt":{"Temperature":21.5,"Humidity":60,"Pressure":101325}}"#),
        value_event(path, r#"{"Rumqtt":{"Temperature":22,"Humidity":61,"Pressure":101300}}"#),
    ];
    let (s, acts) = step(s, &cfg, Event::Batch(batch));
    assert_eq!(acts.len(), 7);
    assert!(matches!(&acts[0], Action::PublishTemperature(v) if v == "21.5 \u{00BA}C"));
    assert!(matches!(&acts[1], Action::PublishHumidity(v) if v == "60 %"));
    assert!(matches!(&acts[2], Action::PublishPressure(v) if v == "101325 kPa"));
    assert!(matches!(&acts[3], Action::PublishTemperature(v) if v == "22 \u{00BA}C"));
    assert!(matches!(&acts[4], Action::PublishHumidity(v) if v == "61 %"));
    assert!(matches!(&acts[5], Action::PublishPressure(v) if v == "101300 kPa"));
    assert!(matches!(acts[6], Action::Poll(1000)));
    assert!(matches!(s, Phase::Notifying { .. }));
}

#[test]
fn malformed_payload_is_dropped_and_later_samples_flow() {
    let cfg = cfg_path_auto();
    let s = drive_to_notifying(&cfg);
    let path = "/org/bluez/hci0/dev_AA/service0023/char0024";
    let batch = vec![
        value_event(path, "not json"),
        value_event(path, r#"{"Rumqtt":{"Temperature":22,"Humidity":61,"Pressure":101300}}"#),
    ];
    let (_, acts) = step(s, &cfg, Event::Batch(batch));
    assert_eq!(acts.len(), 4);
    assert!(matches!(&acts[0], Action::PublishTemperature(v) if v == "22 \u{00BA}C"));
    assert!(matches!(acts[3], Action::Poll(1000)));
}

#[test]
fn non_value_and_foreign_events_publish_nothing() {
    let cfg = cfg_path_auto();
    let s = drive_to_notifying(&cfg);
    let batch = vec![
        HostEvent::Other,
        value_event(
            "/org/bluez/hci0/dev_BB/service0001/char0002",
            r#"{"Rumqtt":{"Temperature":22,"Humidity":61,"Pressure":101300}}"#,
        ),
    ];
    let (_, acts) = step(s, &cfg, Event::Batch(batch));
    assert_eq!(acts.len(), 1);
    assert!(matches!(acts[0], Action::Poll(1000)));
}

#[test]
fn stop_during_notification_stops_notify_and_acknowledges() {
    let cfg = cfg_path_auto();
    let s = drive_to_notifying(&cfg);
    let (s, acts) = step(s, &cfg, Event::Cmd(Command::Stop));
    assert_eq!(acts.len(), 3);
    assert!(
        matches!(&acts[0], Action::StopNotify(p) if p == "/org/bluez/hci0/dev_AA/service0023/char0024")
    );
    assert!(matches!(acts[1], Action::Disconnect));
    assert_eq!(info_of(&acts[2]), "Status: Notification stoped");
    assert!(matches!(s, Phase::Idle));
    // A following Start begins a fresh run.
    let (s, acts) = step(s, &cfg, Event::Cmd(Command::Start));
    assert!(matches!(acts[..], [Action::SetPowered]));
    assert!(matches!(s, Phase::Powering));
}

#[test]
fn quit_during_notification_tears_down_and_exits() {
    let cfg = cfg_path_auto();
    let s = drive_to_notifying(&cfg);
    let (s, acts) = step(s, &cfg, Event::Cmd(Command::Quit));
    assert_eq!(acts.len(), 3);
    assert!(matches!(acts[0], Action::StopNotify(_)));
    assert!(matches!(acts[1], Action::Disconnect));
    assert!(matches!(acts[2], Action::Exit));
    assert!(matches!(s, Phase::Terminal));
    // Terminal absorbs everything.
    let (s, acts) = step(s, &cfg, Event::Cmd(Command::Start));
    assert!(acts.is_empty());
    assert!(matches!(s, Phase::Terminal));
}

#[test]
fn start_while_running_and_stop_while_idle_are_no_ops() {
    let cfg = cfg_path_auto();
    let (s, acts) = step(Phase::Idle, &cfg, Event::Cmd(Command::Stop));
    assert!(acts.is_empty());
    assert!(matches!(s, Phase::Idle));
    let (s, _) = step(s, &cfg, Event::Cmd(Command::Start));
    let (s, acts) = step(s, &cfg, Event::Cmd(Command::Start));
    assert!(acts.is_empty());
    assert!(matches!(s, Phase::Powering));
}

#[test]
fn quit_mid_discovery_closes_the_session() {
    let cfg = cfg_path_auto();
    let (s, _) = step(Phase::Idle, &cfg, Event::Cmd(Command::Start));
    let (s, _) = step(s, &cfg, Event::PowerOk);
    let (s, _) = step(s, &cfg, Event::DiscoveryStarted);
    let (s, acts) = step(s, &cfg, Event::Cmd(Command::Quit));
    assert!(matches!(acts[..], [Action::StopDiscovery, Action::Exit]));
    assert!(matches!(s, Phase::Terminal));
}

#[test]
fn no_notify_characteristic_fails_the_run() {
    let cfg = cfg_path_auto();
    let (s, _) = step(Phase::Idle, &cfg, Event::Cmd(Command::Start));
    let (s, _) = step(s, &cfg, Event::PowerOk);
    let (s, _) = step(s, &cfg, Event::DiscoveryStarted);
    let (s, _) = step(s, &cfg, Event::ScanElapsed);
    let (s, _) = step(s, &cfg, Event::Devices(Vec::new()));
    let (s, _) = step(s, &cfg, Event::ConnectOk);
    let (s, _) = step(s, &cfg, Event::Settled);
    let (s, acts) = step(s, &cfg, Event::GattTree(Some(Vec::new())));
    assert_eq!(acts.len(), 2);
    assert_eq!(info_of(&acts[0]), "Status: NotifyStartFailed");
    assert!(matches!(acts[1], Action::Disconnect));
    assert!(matches!(s, Phase::Idle));
}

#[test]
fn pinned_characteristic_mode_skips_the_search() {
    let cfg = Config::with_target(
        TargetMode::Path("/org/bluez/hci0/dev_AA".to_string()),
        CharMode::Pinned("/service0023/char0024".to_string()),
    );
    let (s, _) = step(Phase::Idle, &cfg, Event::Cmd(Command::Start));
    let (s, _) = step(s, &cfg, Event::PowerOk);
    let (s, _) = step(s, &cfg, Event::DiscoveryStarted);
    let (s, _) = step(s, &cfg, Event::ScanElapsed);
    let (s, _) = step(s, &cfg, Event::Devices(Vec::new()));
    let (s, _) = step(s, &cfg, Event::ConnectOk);
    let (s, acts) = step(s, &cfg, Event::Settled);
    assert!(
        matches!(&acts[..], [Action::StartNotify(p)] if p == "/org/bluez/hci0/dev_AA/service0023/char0024")
    );
    assert!(matches!(s, Phase::Subscribing { .. }));
}

#[test]
fn name_target_picks_first_match() {
    let devices = vec![
        DeviceInfo { path: "/dev_one".to_string(), name: None },
        DeviceInfo { path: "/dev_two".to_string(), name: Some("thermo".to_string()) },
        DeviceInfo { path: "/dev_three".to_string(), name: Some("thermo".to_string()) },
    ];
    let r = select_target(&TargetMode::NameIs("thermo".to_string()), &devices);
    assert_eq!(r.unwrap(), "/dev_two");
}

#[test]
fn name_target_without_match_reports_no_target_device() {
    let cfg = Config::with_target(TargetMode::NameIs("thermo".to_string()), CharMode::Auto);
    let (s, _) = step(Phase::Idle, &cfg, Event::Cmd(Command::Start));
    let (s, _) = step(s, &cfg, Event::PowerOk);
    let (s, _) = step(s, &cfg, Event::DiscoveryStarted);
    let (s, _) = step(s, &cfg, Event::ScanElapsed);
    let devices = vec![DeviceInfo { path: "/dev_one".to_string(), name: Some("other".to_string()) }];
    let (s, acts) = step(s, &cfg, Event::Devices(devices));
    assert_eq!(acts.len(), 1);
    assert_eq!(info_of(&acts[0]), "Status: NoTargetDevice");
    assert!(matches!(s, Phase::Idle));
}

#[test]
fn path_target_is_used_even_when_absent_from_the_list() {
    let devices = vec![DeviceInfo { path: "/dev_other".to_string(), name: None }];
    let r = select_target(&TargetMode::Path("/dev_target".to_string()), &devices);
    assert_eq!(r.unwrap(), "/dev_target");
}

#[test]
fn gatt_fetch_failure_fails_the_run() {
    let cfg = cfg_path_auto();
    let (s, _) = step(Phase::Idle, &cfg, Event::Cmd(Command::Start));
    let (s, _) = step(s, &cfg, Event::PowerOk);
    let (s, _) = step(s, &cfg, Event::DiscoveryStarted);
    let (s, _) = step(s, &cfg, Event::ScanElapsed);
    let (s, _) = step(s, &cfg, Event::Devices(Vec::new()));
    let (s, _) = step(s, &cfg, Event::ConnectOk);
    let (s, _) = step(s, &cfg, Event::Settled);
    let (s, acts) = step(s, &cfg, Event::GattTree(None));
    assert_eq!(acts.len(), 2);
    assert_eq!(info_of(&acts[0]), "Status: GattWalkFailed");
    assert!(matches!(acts[1], Action::Disconnect));
    assert!(matches!(s, Phase::Idle));
}
