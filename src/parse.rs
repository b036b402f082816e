use vstd::prelude::*;
use vstd::string::StringExecFns;
use crate::reading::{BatteryReading, BatteryStatus};

verus! {

#[verifier::external_type_specification]
#[verifier::external_body]
pub struct ExJsonValue(serde_json::Value);

/// A decoded JSON document, holding what the parser reads: a number is kept
/// as its `i64` value when it is an integer in that range, else as `None`;
/// an object keeps its members in the decoder's order.
#[derive(Debug)]
pub enum Json {
    Null,
    Bool(bool),
    Number(Option<i64>),
    Text(String),
    Array(Vec<Json>),
    Object(Vec<(String, Json)>),
}

/// Why the tool's output gave no reading.
#[derive(Clone, Copy, Debug, PartialEq, Eq, Hash, Structural)]
pub enum ParseError {
    /// The bytes are not a JSON document (bad UTF-8, bad syntax, cut short).
    DecodeError,
    /// The document lacks a first device with a well-formed battery object.
    SchemaError,
}

/// The document that serde_json decodes from the bytes, if they hold one.
pub uninterp spec fn json_of(bytes: Seq<u8>) -> Option<Json>;

/// Moves each variant of serde_json's value into the matching one of `Json`.
#[verifier::external_body]
fn json_from_value(v: serde_json::Value) -> (r: Json) {
    match v {
        serde_json::Value::Null => Json::Null,
        serde_json::Value::Bool(b) => Json::Bool(b),
        serde_json::Value::Number(n) => Json::Number(n.as_i64()),
        serde_json::Value::String(s) => Json::Text(s),
        serde_json::Value::Array(a) => Json::Array(a.into_iter().map(json_from_value).collect()),
        serde_json::Value::Object(m) => Json::Object(
            m.into_iter().map(|(k, x)| (k, json_from_value(x))).collect(),
        ),
    }
}

/// Relies on `serde_json::from_slice` into `serde_json::Value`: the decoded
/// document depends on the bytes alone, and input that ends before any value
/// is an error.
#[verifier::external_body]
fn decode_json(bytes: &[u8]) -> (r: Option<Json>)
    ensures
        r == json_of(bytes@),
        bytes@.len() == 0 ==> r is None,
{
    serde_json::from_slice::<serde_json::Value>(bytes).ok().map(json_from_value)
}

/// The value of the first member named `key` among `fields`.
pub open spec fn field_in(fields: Seq<(String, Json)>, key: Seq<char>) -> Option<Json>
    decreases fields.len(),
{
    if fields.len() == 0 {
        None
    } else if fields[0].0@ == key {
        Some(fields[0].1)
    } else {
        field_in(fields.skip(1), key)
    }
}

/// The member `key` of an object; nothing for any other value.
pub open spec fn member_of(v: Json, key: Seq<char>) -> Option<Json> {
    match v {
        Json::Object(fields) => field_in(fields@, key),
        _ => None,
    }
}

/// The characters of a string value.
pub open spec fn text_of(v: Option<Json>) -> Option<Seq<char>> {
    match v {
        Some(Json::Text(s)) => Some(s@),
        _ => None,
    }
}

/// The value of an integer that fits in `i64`.
pub open spec fn integer_of(v: Option<Json>) -> Option<int> {
    match v {
        Some(Json::Number(Some(n))) => Some(n as int),
        _ => None,
    }
}

/// The battery state that a status name stands for.
pub open spec fn status_named(name: Seq<char>) -> Option<BatteryStatus> {
    if name == "BATTERY_AVAILABLE"@ {
        Some(BatteryStatus::Available)
    } else if name == "BATTERY_UNAVAILABLE"@ {
        Some(BatteryStatus::Unavailable)
    } else if name == "BATTERY_CHARGING"@ {
        Some(BatteryStatus::Charging)
    } else {
        None
    }
}

/// The reading given by a battery object's `status` text and `level` integer,
/// when the status is a known name and the level fits in `i32`.
pub open spec fn reading_of(status: Option<Seq<char>>, level: Option<int>) -> Option<BatteryReading> {
    match (status, level) {
        (Some(s), Some(l)) => match status_named(s) {
            Some(st) => if i32::MIN <= l <= i32::MAX {
                Some(BatteryReading { status: st, level: l as i32 })
            } else {
                None
            },
            None => None,
        },
        _ => None,
    }
}

/// The reading in a decoded document: the battery of the first element of
/// its `devices` array. No document is a decode error; a missing or empty
/// `devices` array, or a first device without a battery object holding a
/// known `status` name and an `i32` `level`, is a schema error.
pub open spec fn battery_in(doc: Option<Json>) -> Result<BatteryReading, ParseError> {
    match doc {
        None => Err(ParseError::DecodeError),
        Some(d) => match member_of(d, "devices"@) {
            Some(Json::Array(devices)) => if devices@.len() == 0 {
                Err(ParseError::SchemaError)
            } else {
                match member_of(devices@[0], "battery"@) {
                    Some(b) => match reading_of(
                        text_of(member_of(b, "status"@)),
                        integer_of(member_of(b, "level"@)),
                    ) {
                        Some(r) => Ok(r),
                        None => Err(ParseError::SchemaError),
                    },
                    None => Err(ParseError::SchemaError),
                }
            },
            _ => Err(ParseError::SchemaError),
        },
    }
}

/// The member named `key` of an object value.
pub fn member<'a>(v: &'a Json, key: &str) -> (r: Option<&'a Json>)
    ensures
        r is None <==> member_of(*v, key@) is None,
        r matches Some(x) ==> member_of(*v, key@) == Some(*x),
{
    match v {
        Json::Object(fields) => {
            let k = String::from_str(key);
            let mut i: usize = 0;
            assert(fields@.skip(0) =~= fields@);
            while i < fields.len()
                invariant
                    k@ == key@,
                    member_of(*v, key@) == field_in(fields@, key@),
                    i <= fields@.len(),
                    field_in(fields@.skip(i as int), key@) == field_in(fields@, key@),
                decreases fields@.len() - i,
            {
                assert(fields@.skip(i as int).skip(1) =~= fields@.skip(i + 1));
                assert(fields@.skip(i as int)[0] == fields@[i as int]);
                if fields[i].0 == k {
                    return Some(&fields[i].1);
                }
                i = i + 1;
            }
            assert(fields@.skip(i as int) =~= Seq::<(String, Json)>::empty());
            None
        },
        _ => None,
    }
}

/// `BATTERY_AVAILABLE`, `BATTERY_UNAVAILABLE` or `BATTERY_CHARGING`; anything else is no status.
pub fn status_from_text(name: &str) -> (r: Option<BatteryStatus>)
    ensures
        r == status_named(name@),
{
    let n = String::from_str(name);
    if n == String::from_str("BATTERY_AVAILABLE") {
        Some(BatteryStatus::Available)
    } else if n == String::from_str("BATTERY_UNAVAILABLE") {
        Some(BatteryStatus::Unavailable)
    } else if n == String::from_str("BATTERY_CHARGING") {
        Some(BatteryStatus::Charging)
    } else {
        None
    }
}

pub open spec fn text_chars(t: Option<&str>) -> Option<Seq<char>> {
    match t {
        Some(s) => Some(s@),
        None => None,
    }
}

pub open spec fn integer_value(n: Option<i64>) -> Option<int> {
    match n {
        Some(v) => Some(v as int),
        None => None,
    }
}

/// Builds a reading from the fields found in a battery object.
pub fn reading_from_fields(status: Option<&str>, level: Option<i64>) -> (r: Result<BatteryReading, ParseError>)
    ensures
        r matches Ok(b) ==> reading_of(text_chars(status), integer_value(level)) == Some(b),
        r is Err <==> reading_of(text_chars(status), integer_value(level)) is None,
        r matches Err(e) ==> e == ParseError::SchemaError,
{
    match (status, level) {
        (Some(s), Some(l)) => match status_from_text(s) {
            Some(st) => {
                if i32::MIN as i64 <= l && l <= i32::MAX as i64 {
                    Ok(BatteryReading { status: st, level: l as i32 })
                } else {
                    Err(ParseError::SchemaError)
                }
            },
            None => Err(ParseError::SchemaError),
        },
        _ => Err(ParseError::SchemaError),
    }
}

/// The reading in a decoded document, as `battery_in` describes it.
pub fn battery_from_document(doc: Option<&Json>) -> (r: Result<BatteryReading, ParseError>)
    ensures
        r == battery_in(match doc { Some(d) => Some(*d), None => None }),
{
    let d = match doc {
        Some(d) => d,
        None => {
            return Err(ParseError::DecodeError);
        },
    };
    let devices = match member(d, "devices") {
        Some(Json::Array(list)) => list,
        _ => {
            return Err(ParseError::SchemaError);
        },
    };
    if devices.len() == 0 {
        return Err(ParseError::SchemaError);
    }
    let battery = match member(&devices[0], "battery") {
        Some(b) => b,
        None => {
            return Err(ParseError::SchemaError);
        },
    };
    let status = match member(battery, "status") {
        Some(Json::Text(s)) => Some(s.as_str()),
        _ => None,
    };
    let level = match member(battery, "level") {
        Some(Json::Number(Some(n))) => Some(*n),
        _ => None,
    };
    reading_from_fields(status, level)
}

/// Decodes the tool's output and reads the battery of its first device.
pub fn parse_battery(stdout: &[u8]) -> (r: Result<BatteryReading, ParseError>)
    ensures
        r == battery_in(json_of(stdout@)),
        stdout@.len() == 0 ==> r == Err::<BatteryReading, ParseError>(ParseError::DecodeError),
{
    let doc = decode_json(stdout);
    match doc {
        Some(d) => battery_from_document(Some(&d)),
        None => battery_from_document(None),
    }
}

} // verus!
