use model::decode::{parse_message, DecodeError, EventTime, PayloadKey};
use model::variable::Variable;

fn decode(text: &str) -> Result<model::decode::Reading, DecodeError> {
    parse_message(Some(text.as_bytes()))
}

#[test]
fn decodes_temperature_reading() {
    let r = decode(r#"{"timestamp": 1000000000, "fields": {"Temperature": 5.0}}"#).unwrap();
    assert_eq!(r.variable, Variable::Temperature);
    assert_eq!(f64::from_bits(r.value_bits), 5.0);
    assert_eq!(r.time, EventTime::from_unix_nanos(1_000_000_000));
    assert_eq!(r.time.secs(), 1);
    assert_eq!(r.time.subsec_nanos(), 0);
}

#[test]
fn decodes_pressure_and_slow_sensor() {
    let r = decode(r#"{"fields": {"Pressure": -4.25}, "timestamp": 7}"#).unwrap();
    assert_eq!(r.variable, Variable::Pressure);
    assert_eq!(f64::from_bits(r.value_bits), -4.25);
    assert_eq!(r.time.as_nanos(), 7);
    let r = decode(r#"{"timestamp": 0, "fields": {"SlowSensor": 0.125}}"#).unwrap();
    assert_eq!(r.variable, Variable::SlowSensor);
    assert_eq!(f64::from_bits(r.value_bits), 0.125);
}

#[test]
fn value_is_exact() {
    let r = decode(r#"{"timestamp": 1, "fields": {"Temperature": 0.1}}"#).unwrap();
    assert_eq!(r.value_bits, 0.1f64.to_bits());
    let r = decode(r#"{"timestamp": 1, "fields": {"Pressure": 3}}"#).unwrap();
    assert_eq!(f64::from_bits(r.value_bits), 3.0);
    let r = decode(r#"{"timestamp": 1, "fields": {"Pressure": -2}}"#).unwrap();
    assert_eq!(f64::from_bits(r.value_bits), -2.0);
}

#[test]
fn first_known_field_wins() {
    let r = decode(r#"{"timestamp": 1, "fields": {"SlowSensor": 1.0, "Pressure": 2.0, "Temperature": 3.0}}"#)
        .unwrap();
    assert_eq!(r.variable, Variable::Temperature);
    assert_eq!(f64::from_bits(r.value_bits), 3.0);
    let r = decode(r#"{"timestamp": 1, "fields": {"SlowSensor": 1.0, "Pressure": 2.0}}"#).unwrap();
    assert_eq!(r.variable, Variable::Pressure);
}

#[test]
fn unknown_extra_members_are_ignored() {
    let r = decode(r#"{"timestamp": 5, "site": "a", "fields": {"Humidity": 9.0, "SlowSensor": 4.5}}"#)
        .unwrap();
    assert_eq!(r.variable, Variable::SlowSensor);
    assert_eq!(f64::from_bits(r.value_bits), 4.5);
}

#[test]
fn timestamp_splits_into_seconds_and_nanos() {
    let r = decode(r#"{"timestamp": 1500000123, "fields": {"Temperature": 1.0}}"#).unwrap();
    assert_eq!(r.time.secs(), 1);
    assert_eq!(r.time.subsec_nanos(), 500_000_123);
    assert_eq!(r.time.as_millis(), 1500);
    let t = EventTime::from_unix_nanos(u64::MAX);
    assert_eq!(t.secs(), 18_446_744_073);
    assert_eq!(t.subsec_nanos(), 709_551_615);
    assert_eq!(t.as_millis(), 18_446_744_073_709);
}

#[test]
fn empty_payload() {
    assert_eq!(parse_message(None), Err(DecodeError::EmptyPayload));
}

#[test]
fn payload_not_utf8() {
    let bytes: Vec<u8> = vec![0xff, 0xfe, 0x7b];
    assert_eq!(parse_message(Some(&bytes)), Err(DecodeError::EncodingError));
}

#[test]
fn payload_not_json() {
    assert_eq!(decode("not json at all"), Err(DecodeError::MalformedPayload));
    assert_eq!(decode(""), Err(DecodeError::MalformedPayload));
    assert_eq!(decode(r#"{"timestamp": 1, "fields": {"#), Err(DecodeError::MalformedPayload));
}

#[test]
fn missing_fields() {
    assert_eq!(decode(r#"{"timestamp": 1}"#), Err(DecodeError::MissingField(PayloadKey::Fields)));
    assert_eq!(decode("{}"), Err(DecodeError::MissingField(PayloadKey::Fields)));
    assert_eq!(decode("[1, 2]"), Err(DecodeError::MissingField(PayloadKey::Fields)));
}

#[test]
fn missing_timestamp() {
    assert_eq!(
        decode(r#"{"fields": {"Temperature": 1.0}}"#),
        Err(DecodeError::MissingField(PayloadKey::Timestamp))
    );
}

#[test]
fn timestamp_not_unsigned() {
    let e = Err(DecodeError::TypeMismatch(PayloadKey::Timestamp));
    assert_eq!(decode(r#"{"timestamp": -1, "fields": {"Temperature": 1.0}}"#), e);
    assert_eq!(decode(r#"{"timestamp": 1.5, "fields": {"Temperature": 1.0}}"#), e);
    assert_eq!(decode(r#"{"timestamp": "1", "fields": {"Temperature": 1.0}}"#), e);
    assert_eq!(decode(r#"{"timestamp": 18446744073709551616, "fields": {"Temperature": 1.0}}"#), e);
}

#[test]
fn sensor_value_not_numeric() {
    assert_eq!(
        decode(r#"{"timestamp": 1, "fields": {"Temperature": "hot"}}"#),
        Err(DecodeError::TypeMismatch(PayloadKey::Sensor(Variable::Temperature)))
    );
    assert_eq!(
        decode(r#"{"timestamp": 1, "fields": {"Pressure": null, "SlowSensor": 1.0}}"#),
        Err(DecodeError::TypeMismatch(PayloadKey::Sensor(Variable::Pressure)))
    );
}

#[test]
fn no_known_sensor() {
    assert_eq!(decode(r#"{"timestamp": 1, "fields": {}}"#), Err(DecodeError::UnknownVariable));
    assert_eq!(
        decode(r#"{"timestamp": 1, "fields": {"temperature": 1.0}}"#),
        Err(DecodeError::UnknownVariable)
    );
    assert_eq!(decode(r#"{"timestamp": 1, "fields": 3}"#), Err(DecodeError::UnknownVariable));
}

#[test]
fn names() {
    assert_eq!(Variable::Temperature.name(), "Temperature");
    assert_eq!(Variable::Pressure.to_string(), "Pressure");
    assert_eq!(Variable::SlowSensor.name(), "SlowSensor");
    assert_eq!(Variable::at(0), Variable::Temperature);
    assert_eq!(Variable::at(2), Variable::SlowSensor);
    assert_eq!(PayloadKey::Fields.name(), "fields");
    assert_eq!(PayloadKey::Timestamp.name(), "timestamp");
    assert_eq!(PayloadKey::Sensor(Variable::Pressure).name(), "Pressure");
}
