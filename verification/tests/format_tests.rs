use ble_telemetry::ui::{
    error_status, format_humidity, format_pressure, format_temperature, info_connecting,
    info_stopped, info_triggered,
};
use ble_telemetry::CoreError;

#[test]
fn temperature_label_uses_masculine_ordinal_indicator() {
    let s = format_temperature("21.5");
    assert_eq!(s, "21.5 \u{00BA}C");
    assert!(s.chars().any(|c| c == '\u{00BA}'));
    assert!(!s.chars().any(|c| c == '\u{00B0}'));
}

#[test]
fn humidity_label() {
    assert_eq!(format_humidity("60"), "60 %");
}

#[test]
fn pressure_label_stays_kpa() {
    assert_eq!(format_pressure("101325"), "101325 kPa");
}

#[test]
fn info_strings_are_exact() {
    assert_eq!(info_connecting(), "Status: Connecting ...");
    assert_eq!(info_triggered(), "Status: Triggered notification");
    assert_eq!(info_stopped(), "Status: Notification stoped");
}

#[test]
fn error_status_lines() {
    assert_eq!(
        error_status(CoreError::AdapterUnavailable),
        "Status: AdapterUnavailable"
    );
    assert_eq!(error_status(CoreError::DiscoveryFailed), "Status: DiscoveryFailed");
    assert_eq!(error_status(CoreError::NoTargetDevice), "Status: NoTargetDevice");
    assert_eq!(error_status(CoreError::ConnectFailed), "Status: ConnectFailed");
    assert_eq!(error_status(CoreError::GattWalkFailed), "Status: GattWalkFailed");
    assert_eq!(error_status(CoreError::MalformedUuid), "Status: MalformedUuid");
    assert_eq!(error_status(CoreError::DecodeFailed), "Status: DecodeFailed");
    assert_eq!(
        error_status(CoreError::NotifyStartFailed),
        "Status: NotifyStartFailed"
    );
    assert_eq!(error_status(CoreError::Cancelled), "Status: Cancelled");
}
