use ble_telemetry::payload::decode_payload;
use ble_telemetry::ui::{format_humidity, format_pressure, format_temperature};
use ble_telemetry::CoreError;

fn decode(s: &str) -> Result<(String, String, String), CoreError> {
    let bytes: Vec<u8> = s.as_bytes().to_vec();
    decode_payload(&bytes).map(|smp| (smp.temperature, smp.humidity, smp.pressure))
}

#[test]
fn round_trip_of_the_wire_example() {
    let (t, h, p) = decode(r#"{"Rumqtt":{"Temperature":21.5,"Humidity":60,"Pressure":101325}}"#)
        .unwrap();
    assert_eq!(format_temperature(&t), "21.5 \u{00BA}C");
    assert_eq!(format_humidity(&h), "60 %");
    assert_eq!(format_pressure(&p), "101325 kPa");
}

#[test]
fn decodes_exact_shape() {
    let (t, h, p) = decode(r#"{"Rumqtt":{"Temperature":21.5,"Humidity":60,"Pressure":101325}}"#)
        .unwrap();
    assert_eq!(t, "21.5");
    assert_eq!(h, "60");
    assert_eq!(p, "101325");
}

#[test]
fn tolerates_json_whitespace() {
    let (t, h, p) = decode(
        " { \"Rumqtt\" :\t{ \"Temperature\" : 21.5 ,\n\"Humidity\": 60 , \"Pressure\" :101325 } } ",
    )
    .unwrap();
    assert_eq!(t, "21.5");
    assert_eq!(h, "60");
    assert_eq!(p, "101325");
}

#[test]
fn decodes_negative_and_exponent_numbers() {
    let (t, h, p) = decode(r#"{"Rumqtt":{"Temperature":-1.5e2,"Humidity":0.5,"Pressure":1E+5}}"#)
        .unwrap();
    assert_eq!(t, "-1.5e2");
    assert_eq!(h, "0.5");
    assert_eq!(p, "1E+5");
}

#[test]
fn rejects_plain_text() {
    assert!(matches!(decode("not json"), Err(CoreError::DecodeFailed)));
}

#[test]
fn rejects_empty_payload() {
    assert!(matches!(decode(""), Err(CoreError::DecodeFailed)));
}

#[test]
fn rejects_missing_field() {
    let r = decode(r#"{"Rumqtt":{"Temperature":21.5,"Humidity":60}}"#);
    assert!(matches!(r, Err(CoreError::DecodeFailed)));
}

#[test]
fn rejects_non_number_value() {
    let r = decode(r#"{"Rumqtt":{"Temperature":"hot","Humidity":60,"Pressure":101325}}"#);
    assert!(matches!(r, Err(CoreError::DecodeFailed)));
}

#[test]
fn rejects_wrong_outer_key() {
    let r = decode(r#"{"Mqtt":{"Temperature":21.5,"Humidity":60,"Pressure":101325}}"#);
    assert!(matches!(r, Err(CoreError::DecodeFailed)));
}

#[test]
fn rejects_trailing_garbage() {
    let r = decode(r#"{"Rumqtt":{"Temperature":21.5,"Humidity":60,"Pressure":101325}}x"#);
    assert!(matches!(r, Err(CoreError::DecodeFailed)));
}

#[test]
fn rejects_leading_zero_number() {
    let r = decode(r#"{"Rumqtt":{"Temperature":012,"Humidity":60,"Pressure":101325}}"#);
    assert!(matches!(r, Err(CoreError::DecodeFailed)));
}

#[test]
fn rejects_non_utf8_bytes() {
    let bytes: Vec<u8> = vec![0xff, 0xfe, 0x7b, 0x7d];
    assert!(matches!(decode_payload(&bytes), Err(CoreError::DecodeFailed)));
}

#[test]
fn rejects_bare_dot_fraction() {
    let r = decode(r#"{"Rumqtt":{"Temperature":21.,"Humidity":60,"Pressure":101325}}"#);
    assert!(matches!(r, Err(CoreError::DecodeFailed)));
}
