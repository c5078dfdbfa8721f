use ble_telemetry::uuid::{assigned_number, short_code};
use ble_telemetry::CoreError;

#[test]
fn assigned_number_of_canonical_uuid() {
    let r = assigned_number("00002a00-0000-1000-8000-00805f9b34fb");
    assert_eq!(r.unwrap(), "00002a00");
}

#[test]
fn assigned_number_lowercases_input() {
    let r = assigned_number("00002A00-0000-1000-8000-00805F9B34FB");
    assert_eq!(r.unwrap(), "00002a00");
}

#[test]
fn assigned_number_of_service_uuid() {
    let r = assigned_number("0000180d-0000-1000-8000-00805f9b34fb");
    assert_eq!(r.unwrap(), "0000180d");
}

#[test]
fn assigned_number_rejects_garbage() {
    let r = assigned_number("not-a-uuid");
    assert!(matches!(r, Err(CoreError::MalformedUuid)));
}

#[test]
fn assigned_number_rejects_wrong_length() {
    let r = assigned_number("00002a00-0000-1000-8000-00805f9b34f");
    assert!(matches!(r, Err(CoreError::MalformedUuid)));
}

#[test]
fn assigned_number_rejects_bad_hex_digit() {
    let r = assigned_number("0000Zz00-0000-1000-8000-00805f9b34fb");
    assert!(matches!(r, Err(CoreError::MalformedUuid)));
}

#[test]
fn assigned_number_rejects_misplaced_dash() {
    let r = assigned_number("00002a000-000-1000-8000-00805f9b34fb");
    assert!(matches!(r, Err(CoreError::MalformedUuid)));
}

#[test]
fn assigned_number_rejects_empty() {
    let r = assigned_number("");
    assert!(matches!(r, Err(CoreError::MalformedUuid)));
}

#[test]
fn short_code_is_low_16_bits_of_prefix() {
    let r = short_code("00002901-0000-1000-8000-00805f9b34fb");
    assert_eq!(r.unwrap(), "2901");
}

#[test]
fn short_code_of_upper_case_input() {
    let r = short_code("00002A37-0000-1000-8000-00805F9B34FB");
    assert_eq!(r.unwrap(), "2a37");
}

#[test]
fn short_code_rejects_malformed() {
    let r = short_code("0000290100001000800000805f9b34fb");
    assert!(matches!(r, Err(CoreError::MalformedUuid)));
}
