//! The correlation/retry engine: the two suspension primitives' decision
//! logic, the receive path, and the batching logic of the dispatch loop.
//!
//! The engine owns no clock, no sockets and no threads. Time reaches it as an
//! argument, randomness through the trusted `rand` and `uuid` declarations at
//! the bottom of this module, and every send or wake is carried out by the
//! caller on the engine's word.

use crate::codec::{
    decode_message_kind, decode_message_payload, decode_message_uuid, spec_u128_from_be_bytes,
    spec_u32_from_be_bytes, MessageDecodeError,
};
use crate::kind::{kind_of_tag, ZeromqMessageKind};
use crate::messages::{parsed_multiplication_response, ValueMultiplicationResponse};
use crate::locks::{DeadLockSafeMutex, DeadLockSafeRwLock};
use crate::store::{contains_id, index_of_id, remove_id_spec, CorrelationStore, RequestData};
use vstd::prelude::*;

verus! {

/// The deadline suspension primitive: ready once the given duration has
/// elapsed since it was created. The caller supplies the clock reading, in
/// milliseconds from an epoch of its choosing.
#[derive(Debug, Clone, Copy)]
pub struct SleepFuture {
    initialized_on: u64,
    sleep_for: u64,
}

impl SleepFuture {
    /// When the future was created.
    pub closed spec fn started_at(&self) -> u64 {
        self.initialized_on
    }

    /// How long after creation the deadline fires.
    pub closed spec fn duration(&self) -> u64 {
        self.sleep_for
    }

    /// A deadline of `sleep_for` milliseconds, starting now.
    pub fn new(sleep_for: u64, now: u64) -> (f: SleepFuture)
        ensures
            f.started_at() == now,
            f.duration() == sleep_for,
    {
        SleepFuture { initialized_on: now, sleep_for }
    }

    /// Polls the deadline: ready — `None` — exactly when the duration has
    /// elapsed; otherwise the time still to wait, which the caller hands to
    /// the timer thread together with its wake handle.
    pub fn poll(&self, now: u64) -> (remaining: Option<u64>)
        requires
            self.started_at() <= now,
        ensures
            remaining is None <==> now - self.started_at() >= self.duration(),
            remaining is Some ==> remaining->Some_0 == self.duration() - (now - self.started_at()),
    {
        let elapsed = now - self.initialized_on;
        if elapsed >= self.sleep_for {
            None
        } else {
            Some(self.sleep_for - elapsed)
        }
    }
}

/// Polls the empty-store condition: ready exactly when no request is
/// outstanding. While pending, the caller's wake handle is stored in the
/// single shared waiter slot, overwriting any prior handle — the primitive
/// supports exactly one concurrent waiter by construction.
pub fn empty_condition_poll<W>(
    store: &CorrelationStore,
    waker_slot: &mut Option<W>,
    waker: W,
) -> (ready: bool)
    ensures
        ready <==> store@.len() == 0,
        ready ==> *final(waker_slot) == *old(waker_slot),
        !ready ==> *final(waker_slot) == Some(waker),
{
    if store.is_empty() {
        true
    } else {
        *waker_slot = Some(waker);
        false
    }
}

/// After the receive path removed an entry: hands out the registered wake
/// handle exactly when the store became empty, clearing the slot — so a
/// handle is woken at most once.
pub fn take_waker_if_empty<W>(store: &CorrelationStore, waker_slot: &mut Option<W>) -> (woken:
    Option<W>)
    ensures
        store@.len() == 0 ==> woken == *old(waker_slot) && *final(waker_slot) is None,
        store@.len() > 0 ==> woken is None && *final(waker_slot) == *old(waker_slot),
{
    if store.is_empty() {
        waker_slot.take()
    } else {
        None
    }
}

/// The empty-store suspension primitive as the dispatch loop holds it: the
/// shared request table and the shared single waiter slot. Each poll observes
/// one value of the table under the read lock, so the exact decision logic is
/// stated on plain values by [`empty_condition_poll`]; this type drives it
/// through the locks.
#[derive(Clone)]
pub struct EmptyStorageFuture<W> {
    awaiting_requests_storage: DeadLockSafeRwLock<CorrelationStore>,
    maybe_empty_storage_future_waker: DeadLockSafeMutex<Option<W>>,
}

impl<W> EmptyStorageFuture<W> {
    /// A future over the given shared table and waiter slot.
    pub fn new(
        awaiting_requests_storage: DeadLockSafeRwLock<CorrelationStore>,
        maybe_empty_storage_future_waker: DeadLockSafeMutex<Option<W>>,
    ) -> EmptyStorageFuture<W> {
        EmptyStorageFuture { awaiting_requests_storage, maybe_empty_storage_future_waker }
    }

    /// One poll: ready exactly when the table under the lock was empty at the
    /// moment of the read; while pending, the wake handle is stored in the
    /// waiter slot, overwriting any prior handle.
    pub fn poll(&self, waker: W) -> bool {
        let is_empty = self.awaiting_requests_storage.read(
            |table: &CorrelationStore| table.is_empty(),
        );
        if is_empty {
            true
        } else {
            self.maybe_empty_storage_future_waker.lock(move |slot: Option<W>| (Some(waker), ()));
            false
        }
    }
}

/// What the receive path made of one incoming message.
#[derive(Debug, Clone, Copy, PartialEq, Eq, Structural)]
pub enum ReceiveOutcome {
    /// The kind tag is outside the closed enumeration; the message is dropped.
    UnrecognizedKind(u32),
    /// A recognised kind the receive loop does not expect; dropped.
    IgnoredKind(ZeromqMessageKind),
    /// No outstanding request carries this correlation id; dropped.
    UnknownCorrelationId(u128),
    /// The payload did not parse; the entry stays outstanding.
    MalformedPayload(u128),
    /// The response matched the expected result; the entry was removed.
    Completed(u128),
    /// The response carried a wrong result — an error to log, never fatal;
    /// the entry was removed all the same.
    ResultMismatch(u128),
}

/// The receive path for one incoming message: decode the kind and ignore
/// unexpected ones, decode the correlation id and look it up, decode the
/// payload, compare the result against the expected one by exact equality,
/// and remove the entry. Every failure is recovered locally: the outcome says
/// what happened, and the store changes exactly on a matched id with a
/// parseable payload.
pub fn process_incoming_message(store: &mut CorrelationStore, message_bytes: Vec<u8>) -> (outcome:
    ReceiveOutcome)
    requires
        old(store).wf(),
        message_bytes@.len() >= 20,
    ensures
        final(store).wf(),
        ({
            let tag = spec_u32_from_be_bytes(message_bytes@.take(4));
            let id = spec_u128_from_be_bytes(message_bytes@.skip(4).take(16));
            let payload = message_bytes@.skip(4).skip(16);
            match kind_of_tag(tag) {
                None => outcome == ReceiveOutcome::UnrecognizedKind(tag) && final(store)@ == old(store)@,
                Some(kind) => {
                    if kind != ZeromqMessageKind::ValueMultiplicationResponse {
                        outcome == ReceiveOutcome::IgnoredKind(kind) && final(store)@ == old(store)@
                    } else if !contains_id(old(store)@, id) {
                        outcome == ReceiveOutcome::UnknownCorrelationId(id) && final(store)@ == old(store)@
                    } else {
                        match parsed_multiplication_response(payload) {
                            None => outcome == ReceiveOutcome::MalformedPayload(id) && final(store)@ == old(store)@,
                            Some(result) => {
                                &&& final(store)@ == remove_id_spec(old(store)@, id)
                                &&& outcome == (if old(store)@[index_of_id(old(store)@, id)].1
                                    .expected_result == result {
                                    ReceiveOutcome::Completed(id)
                                } else {
                                    ReceiveOutcome::ResultMismatch(id)
                                })
                            },
                        }
                    }
                },
            }
        }),
{
    match decode_message_kind(message_bytes) {
        Err(error) => match error {
            MessageDecodeError::UnexpectedZeromqMessageKind(tag) => {
                ReceiveOutcome::UnrecognizedKind(tag)
            },
            MessageDecodeError::CantParseJson(_) => vstd::pervasive::unreached(),
        },
        Ok((message_kind, message_bytes_without_kind)) => {
            if !(matches!(message_kind, ZeromqMessageKind::ValueMultiplicationResponse)) {
                return ReceiveOutcome::IgnoredKind(message_kind);
            }
            let (uuid, message_payload_bytes) = decode_message_uuid(message_bytes_without_kind);
            match store.lookup(uuid) {
                None => ReceiveOutcome::UnknownCorrelationId(uuid),
                Some(data) => {
                    match decode_message_payload::<ValueMultiplicationResponse>(
                        message_payload_bytes.as_slice(),
                    ) {
                        Err(_) => ReceiveOutcome::MalformedPayload(uuid),
                        Ok(payload) => {
                            let matched = data.expected_result == payload.result;
                            let _ = store.remove_and_take(uuid);
                            if matched {
                                ReceiveOutcome::Completed(uuid)
                            } else {
                                ReceiveOutcome::ResultMismatch(uuid)
                            }
                        },
                    }
                },
            }
        },
    }
}

/// The resend set of a dispatch cycle: after a timed-out deadline, a snapshot
/// of every outstanding (id, request) pair — each resend reuses the original
/// id and payload — and after a completed empty-store condition, nothing.
pub fn resend_set(store: &CorrelationStore, should_resend: bool) -> (requests: Vec<
    (u128, RequestData),
>)
    ensures
        should_resend ==> requests@ == store@,
        !should_resend ==> requests@.len() == 0,
{
    if should_resend {
        store.pending_pairs()
    } else {
        Vec::new()
    }
}

/// One group of the dispatch loop: drains the resend set first, then fills the
/// rest of the quota with fresh random requests.
#[derive(Debug)]
pub struct SendCycle {
    resend_requests: Vec<(u128, RequestData)>,
    sent_in_group: usize,
    group_size: usize,
}

impl SendCycle {
    /// The resend requests not yet handed out, oldest first.
    pub closed spec fn pending_resends(&self) -> Seq<(u128, RequestData)> {
        self.resend_requests@
    }

    /// How many messages of this group were sent so far.
    pub closed spec fn sent(&self) -> int {
        self.sent_in_group as int
    }

    /// How many messages the group holds in all.
    pub closed spec fn quota(&self) -> int {
        self.group_size as int
    }

    /// A fresh group: the resend set to drain first, and the group quota.
    pub fn new(resend_requests: Vec<(u128, RequestData)>, group_size: usize) -> (cycle: SendCycle)
        ensures
            cycle.pending_resends() == resend_requests@,
            cycle.sent() == 0,
            cycle.quota() == group_size,
    {
        SendCycle { resend_requests, sent_in_group: 0, group_size }
    }

    /// Whether the group's quota has been reached.
    pub fn is_complete(&self) -> (complete: bool)
        ensures
            complete <==> self.sent() >= self.quota(),
    {
        self.sent_in_group >= self.group_size
    }

    /// The next request to send, or `None` once the quota is met: the oldest
    /// pending resend if one is left — marked as a resend, already in the
    /// store — and otherwise a fresh random request, whose operands are two
    /// random bytes, whose expected result is their exact product, and which
    /// is recorded as outstanding before it goes out. A fresh id that is
    /// somehow already taken — ids are assumed collision-free — leaves the
    /// store untouched rather than overwrite the entry that holds it.
    pub fn next_request(&mut self, store: &mut CorrelationStore) -> (r: Option<
        (u128, RequestData, bool),
    >)
        requires
            old(store).wf(),
        ensures
            final(store).wf(),
            final(self).sent() == old(self).sent(),
            final(self).quota() == old(self).quota(),
            old(self).sent() >= old(self).quota() ==> r is None && final(self).pending_resends()
                == old(self).pending_resends() && final(store)@ == old(store)@,
            old(self).sent() < old(self).quota() && old(self).pending_resends().len() > 0 ==> r
                == Some((old(self).pending_resends()[0].0, old(self).pending_resends()[0].1, true))
                && final(self).pending_resends() == old(self).pending_resends().skip(1)
                && final(store)@ == old(store)@,
            old(self).sent() < old(self).quota() && old(self).pending_resends().len() == 0 ==> {
                &&& r is Some
                &&& final(self).pending_resends() == old(self).pending_resends()
                &&& !r->Some_0.2
                &&& 0 <= r->Some_0.1.value <= 255
                &&& 0 <= r->Some_0.1.multiplier <= 255
                &&& r->Some_0.1.expected_result == r->Some_0.1.value * r->Some_0.1.multiplier
                &&& (!contains_id(old(store)@, r->Some_0.0) ==> final(store)@ == old(store)@.push(
                    (r->Some_0.0, r->Some_0.1),
                ))
                &&& (contains_id(old(store)@, r->Some_0.0) ==> final(store)@ == old(store)@)
            },
    {
        if self.sent_in_group >= self.group_size {
            return None;
        }
        if self.resend_requests.len() > 0 {
            let (uuid, data) = self.resend_requests.remove(0);
            proof {
                assert(self.resend_requests@ =~= old(self).pending_resends().skip(1));
            }
            Some((uuid, data, true))
        } else {
            let uuid = uuid::Uuid::new_v4().as_u128();
            let value = rand::random::<u8>() as i64;
            let multiplier = rand::random::<u8>() as i64;
            proof {
                assert(value * multiplier <= 255 * 255 && value * multiplier >= 0)
                    by (nonlinear_arith)
                    requires
                        0 <= value <= 255,
                        0 <= multiplier <= 255,
                ;
            }
            let data = RequestData::new(value, multiplier);
            let _ = store.insert(uuid, data);
            Some((uuid, data, false))
        }
    }

    /// Records one successfully sent request: it counts against the quota.
    /// A request whose encode or send failed is not recorded, and the batch
    /// goes on.
    pub fn record_sent(&mut self)
        requires
            old(self).sent() < old(self).quota(),
        ensures
            final(self).sent() == old(self).sent() + 1,
            final(self).quota() == old(self).quota(),
            final(self).pending_resends() == old(self).pending_resends(),
    {
        self.sent_in_group = self.sent_in_group + 1;
    }
}

/// The type of random correlation ids. Relies on the `uuid` crate; a fresh id
/// is random, so nothing is promised of its value — ids are assumed
/// collision-free, and the store's `insert` refuses an overwrite regardless.
#[verifier::external_type_specification]
#[verifier::external_body]
pub struct ExUuid(uuid::Uuid);

/// Relies on `uuid::Uuid::new_v4`: a fresh random id; no promise of its value.
pub assume_specification[ uuid::Uuid::new_v4 ]() -> uuid::Uuid;

/// Relies on `uuid::Uuid::as_u128`: the id as a plain 128-bit integer.
pub assume_specification[ uuid::Uuid::as_u128 ](u: &uuid::Uuid) -> u128;

/// Relies on `rand::random`: a random value; no promise of its value.
pub assume_specification<T>[ rand::random::<T> ]() -> (r: T)
    where
        rand::distributions::Standard: rand::distributions::Distribution<T>,
;

} // verus!
