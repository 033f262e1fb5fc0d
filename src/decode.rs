//! Decoding an input payload into a reading.
use vstd::prelude::*;

use crate::json::{
    decode_utf8, double_bits, json_double_bits, json_member, json_tree, json_unsigned,
    json_unsigned_member, member, parse_json, parsed_json, utf8_text, Json,
};
use crate::variable::{variable_at, Variable, VARIABLE_COUNT};

verus! {

/// Nanoseconds in one second.
pub const NANOS_PER_SEC: u64 = 1_000_000_000;

/// Nanoseconds in one millisecond.
pub const NANOS_PER_MILLI: u64 = 1_000_000;

/// When an event happened, in nanoseconds since the Unix epoch.
#[derive(Clone, Copy, Debug, PartialEq, Eq, Structural)]
pub struct EventTime {
    pub unix_nanos: u64,
}

impl EventTime {
    pub fn from_unix_nanos(unix_nanos: u64) -> (r: EventTime)
        ensures
            r.unix_nanos == unix_nanos,
    {
        EventTime { unix_nanos }
    }

    /// Whole seconds since the epoch.
    pub fn secs(&self) -> (r: u64)
        ensures
            r == self.unix_nanos / NANOS_PER_SEC,
    {
        self.unix_nanos / NANOS_PER_SEC
    }

    /// The nanoseconds past the last whole second.
    pub fn subsec_nanos(&self) -> (r: u32)
        ensures
            r == self.unix_nanos % NANOS_PER_SEC,
            r < NANOS_PER_SEC,
    {
        (self.unix_nanos % NANOS_PER_SEC) as u32
    }

    /// Nanoseconds since the epoch.
    pub fn as_nanos(&self) -> (r: u64)
        ensures
            r == self.unix_nanos,
    {
        self.unix_nanos
    }

    /// Whole milliseconds since the epoch; always within `i64`.
    pub fn as_millis(&self) -> (r: i64)
        ensures
            r == self.unix_nanos / NANOS_PER_MILLI,
    {
        (self.unix_nanos / NANOS_PER_MILLI) as i64
    }
}

/// One decoded sensor reading.
#[derive(Clone, Copy, Debug, PartialEq, Eq, Structural)]
pub struct Reading {
    pub variable: Variable,
    /// The value as the bit pattern of a double.
    pub value_bits: u64,
    pub time: EventTime,
}

/// A member of the payload that decoding reads.
#[derive(Clone, Copy, Debug, PartialEq, Eq, Structural)]
pub enum PayloadKey {
    Fields,
    Timestamp,
    Sensor(Variable),
}

impl PayloadKey {
    pub open spec fn spec_name(self) -> Seq<char> {
        match self {
            PayloadKey::Fields => "fields"@,
            PayloadKey::Timestamp => "timestamp"@,
            PayloadKey::Sensor(v) => v.spec_name(),
        }
    }

    /// The member's name in the payload.
    pub fn name(&self) -> (r: &'static str)
        ensures
            r@ == self.spec_name(),
    {
        match self {
            PayloadKey::Fields => "fields",
            PayloadKey::Timestamp => "timestamp",
            PayloadKey::Sensor(v) => v.name(),
        }
    }
}

/// Why a payload gave no reading.
#[derive(Clone, Copy, Debug, PartialEq, Eq, Structural)]
pub enum DecodeError {
    /// The message carried no payload.
    EmptyPayload,
    /// The payload is not UTF-8 text.
    EncodingError,
    /// The text is not a JSON document.
    MalformedPayload,
    /// A member that decoding needs is absent.
    MissingField(PayloadKey),
    /// A member holds a value of the wrong type.
    TypeMismatch(PayloadKey),
    /// None of the known sensors appears under "fields".
    UnknownVariable,
}

/// The first known sensor, from position `from` of the search order on,
/// that `fields` has, with its value.
pub open spec fn sensor_from(fields: Json, from: int) -> Result<(Variable, u64), DecodeError>
    decreases VARIABLE_COUNT - from,
{
    if from < 0 || from >= VARIABLE_COUNT {
        Err(DecodeError::UnknownVariable)
    } else {
        let v = variable_at(from);
        match json_member(fields, v.spec_name()) {
            Some(x) => match json_double_bits(x) {
                Some(bits) => Ok((v, bits)),
                None => Err(DecodeError::TypeMismatch(PayloadKey::Sensor(v))),
            },
            None => sensor_from(fields, from + 1),
        }
    }
}

/// The reading that a parsed payload document gives.
pub open spec fn document_reading(doc: Json) -> Result<Reading, DecodeError> {
    match json_member(doc, "fields"@) {
        None => Err(DecodeError::MissingField(PayloadKey::Fields)),
        Some(fields) => match json_member(doc, "timestamp"@) {
            None => Err(DecodeError::MissingField(PayloadKey::Timestamp)),
            Some(ts) => match json_unsigned(ts) {
                None => Err(DecodeError::TypeMismatch(PayloadKey::Timestamp)),
                Some(nanos) => match sensor_from(fields, 0) {
                    Ok((v, bits)) => Ok(
                        Reading { variable: v, value_bits: bits, time: EventTime { unix_nanos: nanos } },
                    ),
                    Err(e) => Err(e),
                },
            },
        },
    }
}

/// The reading that a message payload gives.
pub open spec fn payload_reading(payload: Option<Seq<u8>>) -> Result<Reading, DecodeError> {
    match payload {
        None => Err(DecodeError::EmptyPayload),
        Some(bytes) => match utf8_text(bytes) {
            None => Err(DecodeError::EncodingError),
            Some(text) => match parsed_json(text) {
                None => Err(DecodeError::MalformedPayload),
                Some(doc) => document_reading(doc),
            },
        },
    }
}

/// The bytes of an optional payload.
pub open spec fn payload_view(payload: Option<&[u8]>) -> Option<Seq<u8>> {
    match payload {
        Some(b) => Some(b@),
        None => None,
    }
}

/// The first known sensor, in search order, that `fields` has, with its
/// value as a double bit pattern.
pub fn find_sensor(fields: &serde_json::Value) -> (r: Result<(Variable, u64), DecodeError>)
    ensures
        r == sensor_from(json_tree(*fields), 0),
{
    let mut i: usize = 0;
    while i < VARIABLE_COUNT
        invariant
            i <= VARIABLE_COUNT,
            sensor_from(json_tree(*fields), 0) == sensor_from(json_tree(*fields), i as int),
        decreases VARIABLE_COUNT - i,
    {
        let v = Variable::at(i);
        match member(fields, v.name()) {
            Some(x) => {
                return match double_bits(x) {
                    Some(bits) => Ok((v, bits)),
                    None => Err(DecodeError::TypeMismatch(PayloadKey::Sensor(v))),
                };
            },
            None => {},
        }
        i = i + 1;
    }
    Err(DecodeError::UnknownVariable)
}

/// Reads a parsed payload document: the timestamp and the first known
/// sensor under "fields".
pub fn decode_document(doc: &serde_json::Value) -> (r: Result<Reading, DecodeError>)
    ensures
        r == document_reading(json_tree(*doc)),
{
    let fields = match member(doc, PayloadKey::Fields.name()) {
        Some(f) => f,
        None => {
            return Err(DecodeError::MissingField(PayloadKey::Fields));
        },
    };
    let ts = match member(doc, PayloadKey::Timestamp.name()) {
        Some(t) => t,
        None => {
            return Err(DecodeError::MissingField(PayloadKey::Timestamp));
        },
    };
    let unix_nanos = match ts.as_u64() {
        Some(n) => n,
        None => {
            return Err(DecodeError::TypeMismatch(PayloadKey::Timestamp));
        },
    };
    match find_sensor(fields) {
        Ok((variable, value_bits)) => Ok(
            Reading { variable, value_bits, time: EventTime::from_unix_nanos(unix_nanos) },
        ),
        Err(e) => Err(e),
    }
}

/// Decodes a message payload into a reading.
pub fn parse_message(payload: Option<&[u8]>) -> (r: Result<Reading, DecodeError>)
    ensures
        r == payload_reading(payload_view(payload)),
{
    let bytes = match payload {
        Some(b) => b,
        None => {
            return Err(DecodeError::EmptyPayload);
        },
    };
    let text = match decode_utf8(bytes) {
        Some(t) => t,
        None => {
            return Err(DecodeError::EncodingError);
        },
    };
    match parse_json(text) {
        Ok(doc) => decode_document(&doc),
        Err(_) => Err(DecodeError::MalformedPayload),
    }
}

/// A document with a "fields" object and an unsigned "timestamp" decodes to a
/// reading of the first known sensor present under "fields", with that
/// member's numeric value exactly and the timestamp as given.
pub proof fn lemma_recognized_field_decodes(doc: Json, v: Variable, nanos: u64, bits: u64)
    requires
        json_unsigned_member(doc, "timestamp"@) == Some(nanos),
        json_member(doc, "fields"@) is Some,
        json_member(json_member(doc, "fields"@)->0, v.spec_name()) matches Some(x)
            && json_double_bits(x) == Some(bits),
        forall|w: Variable|
            w.spec_index() < v.spec_index() ==> json_member(
                #[trigger] json_member(doc, "fields"@)->0,
                w.spec_name(),
            ) is None,
    ensures
        document_reading(doc) == Ok::<Reading, DecodeError>(
            Reading { variable: v, value_bits: bits, time: EventTime { unix_nanos: nanos } },
        ),
{
    let fields = json_member(doc, "fields"@)->0;
    lemma_sensor_from_first(fields, 0, v, bits);
}

/// Searching from position `from` finds `v` when it is present and no sensor
/// between `from` and `v` is.
proof fn lemma_sensor_from_first(fields: Json, from: int, v: Variable, bits: u64)
    requires
        0 <= from <= v.spec_index(),
        json_member(fields, v.spec_name()) matches Some(x) && json_double_bits(x) == Some(bits),
        forall|w: Variable|
            from <= w.spec_index() < v.spec_index() ==> json_member(fields, #[trigger] w.spec_name())
                is None,
    ensures
        sensor_from(fields, from) == Ok::<(Variable, u64), DecodeError>((v, bits)),
    decreases v.spec_index() - from,
{
    let w = variable_at(from);
    assert(w.spec_index() == from);
    if from < v.spec_index() {
        assert(json_member(fields, w.spec_name()) is None);
        lemma_sensor_from_first(fields, from + 1, v, bits);
    } else {
        assert(w == v);
    }
}

/// A document without "fields" fails with that member missing, one with
/// "fields" but no "timestamp" fails with the timestamp missing, and one
/// with both, an unsigned timestamp and none of the known sensors under
/// "fields" fails as naming no known sensor. None of them gives a reading.
pub proof fn lemma_incomplete_document_fails(doc: Json)
    ensures
        json_member(doc, "fields"@) is None ==> document_reading(doc) == Err::<Reading, DecodeError>(
            DecodeError::MissingField(PayloadKey::Fields),
        ),
        json_member(doc, "fields"@) is Some && json_member(doc, "timestamp"@) is None
            ==> document_reading(doc) == Err::<Reading, DecodeError>(
            DecodeError::MissingField(PayloadKey::Timestamp),
        ),
        json_member(doc, "fields"@) is Some && json_unsigned_member(doc, "timestamp"@) is Some
            && (forall|w: Variable|
            json_member(#[trigger] json_member(doc, "fields"@)->0, w.spec_name()) is None)
            ==> document_reading(doc) == Err::<Reading, DecodeError>(DecodeError::UnknownVariable),
{
    if json_member(doc, "fields"@) is Some && json_unsigned_member(doc, "timestamp"@) is Some
        && (forall|w: Variable| json_member(#[trigger] json_member(doc, "fields"@)->0, w.spec_name()) is None) {
        let fields = json_member(doc, "fields"@)->0;
        assert(json_member(fields, variable_at(0).spec_name()) is None);
        assert(json_member(fields, variable_at(1).spec_name()) is None);
        assert(json_member(fields, variable_at(2).spec_name()) is None);
        reveal_with_fuel(sensor_from, 4);
    }
}

/// UTF-8 text that is not a JSON document is malformed and gives no reading.
pub proof fn lemma_malformed_text_fails(bytes: Seq<u8>)
    requires
        utf8_text(bytes) matches Some(text) && parsed_json(text) is None,
    ensures
        payload_reading(Some(bytes)) == Err::<Reading, DecodeError>(DecodeError::MalformedPayload),
{
}

} // verus!
