use message_bus::codec::{
    decode_message_kind, decode_message_payload, decode_message_uuid, encode_message,
    MessageDecodeError, MessageEncodeError,
};
use message_bus::kind::ZeromqMessageKind;
use message_bus::messages::{ValueMultiplicationRequest, ValueMultiplicationResponse};
use message_bus::template::ZeromqMessageTrait;

fn get_json_data_error() -> serde_json::Error {
    let maybe_json_error = serde_json::from_str::<'_, ()>("{[[[]]][[]]}");
    let json_error = maybe_json_error.unwrap_err();
    assert!(json_error.is_data());
    json_error
}

fn get_json_syntax_error() -> serde_json::Error {
    let maybe_json_error = serde_json::from_str::<'_, ()>("////////////\\");
    let json_error = maybe_json_error.unwrap_err();
    assert!(json_error.is_syntax());
    json_error
}

#[test]
fn basics() {
    let payload = ValueMultiplicationRequest {
        value: 5,
        multiplier: 5,
    };
    let uuid = uuid::Uuid::new_v4().as_u128();

    let encoded_zeromq_message =
        encode_message(uuid, payload.clone()).expect("failed to encode message");

    let (decoded_kind, remaining_bytes) =
        decode_message_kind(encoded_zeromq_message).expect("failed to decode message kind");
    assert_eq!(
        <ValueMultiplicationRequest as ZeromqMessageTrait>::kind(),
        decoded_kind
    );

    let (decoded_uuid, remaining_bytes) = decode_message_uuid(remaining_bytes);
    assert_eq!(uuid, decoded_uuid);

    let decoded_payload = decode_message_payload(remaining_bytes.as_slice())
        .expect("failed to decode message payload");
    assert_eq!(payload, decoded_payload);
}

#[test]
fn encode_error_eq() {
    assert_eq!(
        MessageEncodeError::CantCreateJsonFromMessagePayload(get_json_syntax_error().to_string()),
        MessageEncodeError::CantCreateJsonFromMessagePayload(get_json_syntax_error().to_string())
    );

    assert_ne!(
        MessageEncodeError::CantCreateJsonFromMessagePayload(get_json_syntax_error().to_string()),
        MessageEncodeError::CantCreateJsonFromMessagePayload(get_json_data_error().to_string())
    );
}

#[test]
fn decode_error_eq() {
    assert_eq!(
        MessageDecodeError::UnexpectedZeromqMessageKind(
            ZeromqMessageKind::ValueMultiplicationRequest.tag()
        ),
        MessageDecodeError::UnexpectedZeromqMessageKind(
            ZeromqMessageKind::ValueMultiplicationRequest.tag()
        )
    );

    assert_eq!(
        MessageDecodeError::CantParseJson(get_json_data_error().to_string()),
        MessageDecodeError::CantParseJson(get_json_data_error().to_string())
    );

    assert_ne!(
        MessageDecodeError::UnexpectedZeromqMessageKind(
            ZeromqMessageKind::ValueMultiplicationResponse.tag()
        ),
        MessageDecodeError::UnexpectedZeromqMessageKind(
            ZeromqMessageKind::ValueMultiplicationRequest.tag()
        )
    );

    assert_ne!(
        MessageDecodeError::CantParseJson(get_json_data_error().to_string()),
        MessageDecodeError::CantParseJson(get_json_syntax_error().to_string())
    );

    assert_ne!(
        MessageDecodeError::UnexpectedZeromqMessageKind(
            ZeromqMessageKind::ValueMultiplicationResponse.tag()
        ),
        MessageDecodeError::CantParseJson(get_json_syntax_error().to_string())
    );
}

#[test]
fn errors_clone() {
    let encode_error =
        MessageEncodeError::CantCreateJsonFromMessagePayload(get_json_syntax_error().to_string());
    assert_eq!(encode_error, encode_error.clone());

    let decode_error_json = MessageDecodeError::CantParseJson(get_json_data_error().to_string());
    assert_eq!(decode_error_json, decode_error_json.clone());

    let decode_error_kind = MessageDecodeError::UnexpectedZeromqMessageKind(
        ZeromqMessageKind::ValueMultiplicationResponse.tag(),
    );
    assert_eq!(decode_error_kind, decode_error_kind.clone());
}

#[test]
fn round_trip_request_extremes() {
    for (value, multiplier) in [
        (0_i64, 0_i64),
        (i64::MIN, 1),
        (i64::MAX, 1),
        (-42, 99),
    ] {
        for uuid in [0_u128, 1, u128::MAX] {
            let payload = ValueMultiplicationRequest { value, multiplier };
            let bytes = encode_message(uuid, payload).expect("encoding never fails");
            let (kind, rest) = decode_message_kind(bytes).expect("tag is recognised");
            assert_eq!(kind, ZeromqMessageKind::ValueMultiplicationRequest);
            let (id, payload_bytes) = decode_message_uuid(rest);
            assert_eq!(id, uuid);
            let back: ValueMultiplicationRequest =
                decode_message_payload(payload_bytes.as_slice()).expect("payload parses");
            assert_eq!(back, payload);
        }
    }
}

#[test]
fn round_trip_response() {
    let payload = ValueMultiplicationResponse { result: -123456789 };
    let uuid = 0xfeed_beef_u128;
    let bytes = encode_message(uuid, payload).expect("encoding never fails");
    let (kind, rest) = decode_message_kind(bytes).expect("tag is recognised");
    assert_eq!(kind, ZeromqMessageKind::ValueMultiplicationResponse);
    let (id, payload_bytes) = decode_message_uuid(rest);
    assert_eq!(id, uuid);
    let back: ValueMultiplicationResponse =
        decode_message_payload(payload_bytes.as_slice()).expect("payload parses");
    assert_eq!(back, payload);
}

#[test]
fn envelope_layout_is_byte_exact() {
    let payload = ValueMultiplicationResponse { result: 25 };
    let uuid = 0x0102_0304_0506_0708_090a_0b0c_0d0e_0f10_u128;
    let bytes = encode_message(uuid, payload).expect("encoding never fails");
    assert_eq!(&bytes[0..4], &[0, 0, 0, 2]);
    assert_eq!(
        &bytes[4..20],
        &[1, 2, 3, 4, 5, 6, 7, 8, 9, 10, 11, 12, 13, 14, 15, 16]
    );
    assert!(bytes.len() > 20);
}

#[test]
fn unknown_kind_yields_unrecognized_kind_error() {
    for tag_bytes in [[0_u8, 0, 0, 0], [0, 0, 0, 3], [0xff, 0xff, 0xff, 0xff]] {
        let mut message = tag_bytes.to_vec();
        message.extend_from_slice(&[0_u8; 16]);
        let tag = u32::from_be_bytes(tag_bytes);
        match decode_message_kind(message) {
            Err(MessageDecodeError::UnexpectedZeromqMessageKind(found)) => {
                assert_eq!(found, tag)
            }
            other => panic!("expected an unrecognised-kind error, got {:?}", other),
        }
    }
}

#[test]
fn malformed_payload_yields_cant_parse_json() {
    for bad in [
        &b"not json at all"[..],
        &b""[..],
        &b"{}"[..],
        &b"{\"result\": \"text\"}"[..],
        &b"{\"value\": 1}"[..],
    ] {
        let decoded: Result<ValueMultiplicationRequest, _> = decode_message_payload(bad);
        match decoded {
            Err(MessageDecodeError::CantParseJson(_)) => {}
            other => panic!("expected a payload-parse error, got {:?}", other),
        }
    }
}

#[test]
fn respond_returns_exact_product() {
    let request = ValueMultiplicationRequest {
        value: 111,
        multiplier: -3,
    };
    assert_eq!(request.respond().result, -333);
}
