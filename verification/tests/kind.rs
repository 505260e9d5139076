use message_bus::kind::ZeromqMessageKind;

#[test]
fn basic() {
    assert_eq!(
        Some(ZeromqMessageKind::ValueMultiplicationRequest),
        ZeromqMessageKind::from_tag(1_u32)
    );
}

#[test]
#[should_panic]
fn error() {
    ZeromqMessageKind::from_tag(0_u32).unwrap();
}

#[test]
fn tags_round_trip() {
    for kind in [
        ZeromqMessageKind::ValueMultiplicationRequest,
        ZeromqMessageKind::ValueMultiplicationResponse,
    ] {
        assert_eq!(Some(kind), ZeromqMessageKind::from_tag(kind.tag()));
    }
    assert_eq!(ZeromqMessageKind::ValueMultiplicationRequest.tag(), 1);
    assert_eq!(ZeromqMessageKind::ValueMultiplicationResponse.tag(), 2);
}

#[test]
fn unknown_tags_are_refused() {
    for tag in [0_u32, 3, 99, u32::MAX] {
        assert_eq!(None, ZeromqMessageKind::from_tag(tag));
    }
}
