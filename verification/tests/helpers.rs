use message_bus::helpers::{format_zmq_message, uppercase_first, MessageKind, RequestData};

#[test]
fn message_kind_defaults_to_incoming() {
    assert!(matches!(MessageKind::default(), MessageKind::Incoming));
}

#[test]
fn uppercase_first_capitalises_only_the_first_character() {
    assert_eq!(uppercase_first("hello".to_string()), "Hello");
    assert_eq!(uppercase_first("valueMultiplication".to_string()), "ValueMultiplication");
    assert_eq!(uppercase_first("X".to_string()), "X");
    assert_eq!(uppercase_first("a".to_string()), "A");
}

#[test]
fn format_zmq_message_takes_the_last_frame() {
    let frames = vec![b"identity".to_vec(), b"the content".to_vec()];
    assert_eq!(format_zmq_message(frames).unwrap(), "the content");

    let single = vec![b"only".to_vec()];
    assert_eq!(format_zmq_message(single).unwrap(), "only");
}

#[test]
fn format_zmq_message_without_frames_is_an_error() {
    assert!(format_zmq_message(Vec::new()).is_err());
}

#[test]
fn request_data_carries_its_content() {
    let data = RequestData { content: "abc".to_string() };
    assert_eq!(data.clone().content, "abc");
}
