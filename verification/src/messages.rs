//! The concrete message payloads and their JSON serialisation.
//!
//! The JSON work itself is done by `serde_json`; the library only states what
//! the calls return, as named functions of the payload fields alone.

use crate::codec::MessageDecodeError;
use crate::kind::ZeromqMessageKind;
use crate::template::ZeromqMessageTrait;
use vstd::prelude::*;

verus! {

/// A request to multiply `value` by `multiplier`.
#[derive(Debug, Clone, Copy, PartialEq, Eq, Structural)]
pub struct ValueMultiplicationRequest {
    pub value: i64,
    pub multiplier: i64,
}

/// The answer to a [`ValueMultiplicationRequest`].
#[derive(Debug, Clone, Copy, PartialEq, Eq, Structural)]
pub struct ValueMultiplicationResponse {
    pub result: i64,
}

/// The error type of `serde_json`, carried between the parse wrappers and the
/// wrapper that renders its message; opaque to the rest of the library.
#[verifier::external_type_specification]
#[verifier::external_body]
pub struct ExSerdeJsonError(serde_json::Error);

/// The JSON bytes of a request payload with the two given fields.
pub uninterp spec fn multiplication_request_json(value: i64, multiplier: i64) -> Seq<u8>;

/// The two integer fields a request payload parse yields, if the bytes parse.
pub uninterp spec fn parsed_multiplication_request(bytes: Seq<u8>) -> Option<(i64, i64)>;

/// The JSON bytes of a response payload with the given field.
pub uninterp spec fn multiplication_response_json(result: i64) -> Seq<u8>;

/// The integer field a response payload parse yields, if the bytes parse.
pub uninterp spec fn parsed_multiplication_response(bytes: Seq<u8>) -> Option<i64>;

/// Relies on `serde_json` serialisation of a two-field JSON object: the bytes
/// depend on `value` and `multiplier` alone, and parsing them yields the two
/// fields back.
#[verifier::external_body]
fn encode_request_payload(value: i64, multiplier: i64) -> (bytes: Vec<u8>)
    ensures
        bytes@ == multiplication_request_json(value, multiplier),
        parsed_multiplication_request(bytes@) == Some((value, multiplier)),
{
    let mut object = serde_json::Map::new();
    let _ = object.insert("value".to_string(), serde_json::Value::from(value));
    let _ = object.insert("multiplier".to_string(), serde_json::Value::from(multiplier));
    serde_json::Value::Object(object).to_string().into_bytes()
}

/// Relies on `serde_json::from_slice` and the `serde_json::Value` accessors:
/// succeeds exactly when the bytes are a JSON object with integer fields
/// `value` and `multiplier`, and then yields those two integers.
#[verifier::external_body]
fn decode_request_payload(bytes: &[u8]) -> (r: Result<(i64, i64), serde_json::Error>)
    ensures
        r is Ok <==> parsed_multiplication_request(bytes@) is Some,
        r is Ok ==> parsed_multiplication_request(bytes@) == Some((r->Ok_0.0, r->Ok_0.1)),
{
    let object: serde_json::Value = serde_json::from_slice(bytes)?;
    let value = object.get("value").and_then(serde_json::Value::as_i64);
    let multiplier = object.get("multiplier").and_then(serde_json::Value::as_i64);
    match (value, multiplier) {
        (Some(value), Some(multiplier)) => Ok((value, multiplier)),
        _ => Err(<serde_json::Error as serde::de::Error>::custom("missing integer field")),
    }
}

/// Relies on `serde_json` serialisation of a one-field JSON object: the bytes
/// depend on `result` alone, and parsing them yields the field back.
#[verifier::external_body]
fn encode_response_payload(result: i64) -> (bytes: Vec<u8>)
    ensures
        bytes@ == multiplication_response_json(result),
        parsed_multiplication_response(bytes@) == Some(result),
{
    let mut object = serde_json::Map::new();
    let _ = object.insert("result".to_string(), serde_json::Value::from(result));
    serde_json::Value::Object(object).to_string().into_bytes()
}

/// Relies on `serde_json::from_slice` and the `serde_json::Value` accessors:
/// succeeds exactly when the bytes are a JSON object with an integer field
/// `result`, and then yields that integer.
#[verifier::external_body]
fn decode_response_payload(bytes: &[u8]) -> (r: Result<i64, serde_json::Error>)
    ensures
        r is Ok <==> parsed_multiplication_response(bytes@) is Some,
        r is Ok ==> parsed_multiplication_response(bytes@) == Some(r->Ok_0),
{
    let object: serde_json::Value = serde_json::from_slice(bytes)?;
    match object.get("result").and_then(serde_json::Value::as_i64) {
        Some(result) => Ok(result),
        None => Err(<serde_json::Error as serde::de::Error>::custom("missing integer field")),
    }
}

/// Relies on the `Display` implementation of `serde_json::Error` for a
/// human-readable description of a parse failure.
#[verifier::external_body]
fn json_error_message(error: &serde_json::Error) -> String {
    error.to_string()
}

impl ZeromqMessageTrait for ValueMultiplicationRequest {
    open spec fn kind_spec() -> ZeromqMessageKind {
        ZeromqMessageKind::ValueMultiplicationRequest
    }

    open spec fn payload_bytes_spec(self) -> Seq<u8> {
        multiplication_request_json(self.value, self.multiplier)
    }

    open spec fn parse_payload_spec(bytes: Seq<u8>) -> Option<Self> {
        match parsed_multiplication_request(bytes) {
            Some(fields) => Some(
                ValueMultiplicationRequest { value: fields.0, multiplier: fields.1 },
            ),
            None => None,
        }
    }

    fn kind() -> (kind: ZeromqMessageKind) {
        ZeromqMessageKind::ValueMultiplicationRequest
    }

    fn to_payload_bytes(&self) -> (bytes: Vec<u8>) {
        encode_request_payload(self.value, self.multiplier)
    }

    fn from_payload_bytes(bytes: &[u8]) -> (r: Result<Self, MessageDecodeError>) {
        match decode_request_payload(bytes) {
            Ok(fields) => Ok(ValueMultiplicationRequest { value: fields.0, multiplier: fields.1 }),
            Err(error) => Err(MessageDecodeError::CantParseJson(json_error_message(&error))),
        }
    }
}

impl ZeromqMessageTrait for ValueMultiplicationResponse {
    open spec fn kind_spec() -> ZeromqMessageKind {
        ZeromqMessageKind::ValueMultiplicationResponse
    }

    open spec fn payload_bytes_spec(self) -> Seq<u8> {
        multiplication_response_json(self.result)
    }

    open spec fn parse_payload_spec(bytes: Seq<u8>) -> Option<Self> {
        match parsed_multiplication_response(bytes) {
            Some(result) => Some(ValueMultiplicationResponse { result }),
            None => None,
        }
    }

    fn kind() -> (kind: ZeromqMessageKind) {
        ZeromqMessageKind::ValueMultiplicationResponse
    }

    fn to_payload_bytes(&self) -> (bytes: Vec<u8>) {
        encode_response_payload(self.result)
    }

    fn from_payload_bytes(bytes: &[u8]) -> (r: Result<Self, MessageDecodeError>) {
        match decode_response_payload(bytes) {
            Ok(result) => Ok(ValueMultiplicationResponse { result }),
            Err(error) => Err(MessageDecodeError::CantParseJson(json_error_message(&error))),
        }
    }
}

impl ValueMultiplicationRequest {
    /// The response a responder owes to this request: the exact product.
    pub fn respond(&self) -> (r: ValueMultiplicationResponse)
        requires
            i64::MIN <= self.value * self.multiplier <= i64::MAX,
        ensures
            r.result == self.value * self.multiplier,
    {
        ValueMultiplicationResponse { result: self.value * self.multiplier }
    }
}

} // verus!
