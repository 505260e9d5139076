use message_bus::codec::{decode_message_kind, decode_message_payload, decode_message_uuid, encode_message};
use message_bus::engine::{
    empty_condition_poll, process_incoming_message, resend_set, take_waker_if_empty,
    EmptyStorageFuture, ReceiveOutcome, SendCycle, SleepFuture,
};
use message_bus::kind::ZeromqMessageKind;
use message_bus::locks::{DeadLockSafeMutex, DeadLockSafeRwLock};
use message_bus::messages::{ValueMultiplicationRequest, ValueMultiplicationResponse};
use message_bus::store::{CorrelationStore, RequestData};

#[test]
fn deadline_poll_is_exact() {
    let deadline = SleepFuture::new(1000, 500);
    assert_eq!(deadline.poll(500), Some(1000));
    assert_eq!(deadline.poll(700), Some(800));
    assert_eq!(deadline.poll(1499), Some(1));
    assert_eq!(deadline.poll(1500), None);
    assert_eq!(deadline.poll(9999), None);
}

#[test]
fn single_slot_waiter_registration_and_at_most_once_wake() {
    let mut store = CorrelationStore::new();
    store.insert(1, RequestData::new(1, 1));
    let mut slot: Option<u32> = None;

    assert!(!empty_condition_poll(&store, &mut slot, 11));
    assert_eq!(slot, Some(11));

    // A later poll overwrites the prior handle: one waiter by construction.
    assert!(!empty_condition_poll(&store, &mut slot, 22));
    assert_eq!(slot, Some(22));

    // The store is not empty yet: no wake.
    assert_eq!(take_waker_if_empty(&store, &mut slot), None);
    assert_eq!(slot, Some(22));

    store.remove_and_take(1);

    // Now empty: the handle is woken, and at most once.
    assert_eq!(take_waker_if_empty(&store, &mut slot), Some(22));
    assert_eq!(take_waker_if_empty(&store, &mut slot), None);

    // Polling an empty store is ready and registers nothing.
    assert!(empty_condition_poll(&store, &mut slot, 33));
    assert_eq!(slot, None);
}

#[test]
fn empty_storage_future_polls_through_the_locks() {
    let storage = DeadLockSafeRwLock::new(CorrelationStore::new());
    let waker_slot = DeadLockSafeMutex::new(None::<String>);
    let future = EmptyStorageFuture::new(storage.clone(), waker_slot.clone());

    assert!(future.poll("first".to_string()));

    storage.write(|mut table: CorrelationStore| {
        table.insert(1, RequestData::new(1, 1));
        (table, ())
    });
    assert!(!future.poll("second".to_string()));

    let registered = waker_slot.lock(|handle: Option<String>| (None, handle));
    assert_eq!(registered, Some("second".to_string()));
}

#[test]
fn completed_response_is_removed_from_the_store() {
    let mut store = CorrelationStore::new();
    store.insert(9, RequestData::new(6, 7));
    let response = encode_message(9, ValueMultiplicationResponse { result: 42 })
        .expect("encoding never fails");
    assert_eq!(
        process_incoming_message(&mut store, response),
        ReceiveOutcome::Completed(9)
    );
    assert!(store.is_empty());
}

#[test]
fn mismatched_result_is_logged_and_removed_without_terminating() {
    let mut store = CorrelationStore::new();
    store.insert(9, RequestData::new(6, 7));
    let response = encode_message(9, ValueMultiplicationResponse { result: 41 })
        .expect("encoding never fails");
    assert_eq!(
        process_incoming_message(&mut store, response),
        ReceiveOutcome::ResultMismatch(9)
    );
    // The entry is removed all the same, and processing carries on.
    assert!(store.is_empty());
}

#[test]
fn unknown_id_and_foreign_kinds_leave_the_store_alone() {
    let mut store = CorrelationStore::new();
    store.insert(9, RequestData::new(6, 7));

    let stray = encode_message(12345, ValueMultiplicationResponse { result: 1 })
        .expect("encoding never fails");
    assert_eq!(
        process_incoming_message(&mut store, stray),
        ReceiveOutcome::UnknownCorrelationId(12345)
    );
    assert_eq!(store.len(), 1);

    let own_request = encode_message(9, ValueMultiplicationRequest { value: 6, multiplier: 7 })
        .expect("encoding never fails");
    assert_eq!(
        process_incoming_message(&mut store, own_request),
        ReceiveOutcome::IgnoredKind(ZeromqMessageKind::ValueMultiplicationRequest)
    );
    assert_eq!(store.len(), 1);

    let mut unknown_kind = vec![0_u8, 0, 0, 9];
    unknown_kind.extend_from_slice(&[0_u8; 16]);
    assert_eq!(
        process_incoming_message(&mut store, unknown_kind),
        ReceiveOutcome::UnrecognizedKind(9)
    );
    assert_eq!(store.len(), 1);
}

#[test]
fn malformed_payload_keeps_the_entry_outstanding() {
    let mut store = CorrelationStore::new();
    store.insert(9, RequestData::new(6, 7));
    let valid = encode_message(9, ValueMultiplicationResponse { result: 42 })
        .expect("encoding never fails");
    let mut broken = valid[0..20].to_vec();
    broken.extend_from_slice(b"not json");
    assert_eq!(
        process_incoming_message(&mut store, broken),
        ReceiveOutcome::MalformedPayload(9)
    );
    assert_eq!(store.len(), 1);
}

#[test]
fn all_answered_resolves_the_empty_condition_without_resend() {
    let mut store = CorrelationStore::new();
    for id in [1_u128, 2, 3] {
        store.insert(id, RequestData::new(id as i64, 2));
    }
    for id in [1_u128, 2, 3] {
        let response =
            encode_message(id, ValueMultiplicationResponse { result: id as i64 * 2 })
                .expect("encoding never fails");
        assert_eq!(
            process_incoming_message(&mut store, response),
            ReceiveOutcome::Completed(id)
        );
    }

    let mut slot: Option<u32> = None;
    assert!(empty_condition_poll(&store, &mut slot, 1));
    let no_resend = resend_set(&store, false);
    assert!(no_resend.is_empty());
}

#[test]
fn unanswered_request_is_resent_with_identical_id_and_payload() {
    // Pending {A, B, C}; responses arrive for B and C within 200 ms; at
    // 1000 ms A is still pending, the deadline resolves, and exactly one
    // resend goes out carrying A's original id and payload.
    let mut store = CorrelationStore::new();
    let (a, b, c) = (0xa_u128, 0xb_u128, 0xc_u128);
    store.insert(a, RequestData::new(2, 3));
    store.insert(b, RequestData::new(4, 5));
    store.insert(c, RequestData::new(6, 7));

    let deadline = SleepFuture::new(1000, 0);

    let response_b = encode_message(b, ValueMultiplicationResponse { result: 20 })
        .expect("encoding never fails");
    assert_eq!(
        process_incoming_message(&mut store, response_b),
        ReceiveOutcome::Completed(b)
    );
    let response_c = encode_message(c, ValueMultiplicationResponse { result: 42 })
        .expect("encoding never fails");
    assert_eq!(
        process_incoming_message(&mut store, response_c),
        ReceiveOutcome::Completed(c)
    );
    assert!(deadline.poll(200).is_some());

    // At the deadline, A is still pending: the race ends with a resend.
    let mut slot: Option<u32> = None;
    assert!(!empty_condition_poll(&store, &mut slot, 1));
    assert!(deadline.poll(1000).is_none());

    let resend = resend_set(&store, true);
    assert_eq!(resend.len(), 1);
    assert_eq!(resend[0].0, a);
    assert_eq!(resend[0].1, RequestData::new(2, 3));

    let mut cycle = SendCycle::new(resend, 1);
    let (id, data, is_resend) = cycle.next_request(&mut store).expect("quota not yet met");
    assert_eq!(id, a);
    assert_eq!(data, RequestData::new(2, 3));
    assert!(is_resend);
    cycle.record_sent();
    assert!(cycle.is_complete());
    assert!(cycle.next_request(&mut store).is_none());

    // The resend was not re-inserted: the entry was already present.
    assert_eq!(store.len(), 1);
}

#[test]
fn resends_drain_before_fresh_requests() {
    let resend = vec![
        (1_u128, RequestData::new(1, 2)),
        (2_u128, RequestData::new(3, 4)),
    ];
    let mut store = CorrelationStore::new();
    let mut cycle = SendCycle::new(resend, 3);

    let (first_id, first_data, first_is_resend) = cycle.next_request(&mut store).unwrap();
    assert_eq!((first_id, first_is_resend), (1, true));
    assert_eq!(first_data.expected_result, 2);
    cycle.record_sent();
    // A resend is not re-inserted.
    assert!(store.is_empty());

    let (second_id, _, second_is_resend) = cycle.next_request(&mut store).unwrap();
    assert_eq!((second_id, second_is_resend), (2, true));
    cycle.record_sent();

    let (_, fresh_data, fresh_is_resend) = cycle.next_request(&mut store).unwrap();
    assert!(!fresh_is_resend);
    assert!((0..=255).contains(&fresh_data.value));
    assert!((0..=255).contains(&fresh_data.multiplier));
    assert_eq!(
        fresh_data.expected_result,
        fresh_data.value * fresh_data.multiplier
    );
    // A fresh request is recorded as outstanding at generation time.
    assert_eq!(store.len(), 1);
}

#[test]
fn fresh_requests_fill_the_quota_and_are_recorded() {
    let mut store = CorrelationStore::new();
    let mut cycle = SendCycle::new(Vec::new(), 5);
    let mut sent = 0;
    while let Some((_, _, is_resend)) = cycle.next_request(&mut store) {
        assert!(!is_resend);
        cycle.record_sent();
        sent += 1;
    }
    assert_eq!(sent, 5);
    assert_eq!(store.len(), 5);
    assert!(cycle.is_complete());
}

#[test]
fn request_response_full_cycle() {
    // Sender side: one fresh request goes out and is recorded as outstanding.
    let mut store = CorrelationStore::new();
    let mut cycle = SendCycle::new(Vec::new(), 1);
    let (id, data, is_resend) = cycle.next_request(&mut store).expect("quota not yet met");
    assert!(!is_resend);
    assert_eq!(store.len(), 1);
    let request = ValueMultiplicationRequest {
        value: data.value,
        multiplier: data.multiplier,
    };
    let wire = encode_message(id, request).expect("encoding never fails");
    cycle.record_sent();

    // Responder side: decode, compute the product, answer under the same id.
    let (kind, rest) = decode_message_kind(wire).expect("tag is recognised");
    assert_eq!(kind, ZeromqMessageKind::ValueMultiplicationRequest);
    let (uuid, payload_bytes) = decode_message_uuid(rest);
    assert_eq!(uuid, id);
    let received: ValueMultiplicationRequest =
        decode_message_payload(payload_bytes.as_slice()).expect("payload parses");
    assert_eq!(received, request);
    let response_wire =
        encode_message(uuid, received.respond()).expect("encoding never fails");

    // Sender's receive path: correlate, verify, and drain the store.
    assert_eq!(
        process_incoming_message(&mut store, response_wire),
        ReceiveOutcome::Completed(id)
    );
    assert!(store.is_empty());
}
