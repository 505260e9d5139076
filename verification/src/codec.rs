//! The wire codec: a flat envelope of a four-byte big-endian kind tag, a
//! sixteen-byte big-endian correlation id, and the payload bytes occupying the
//! remainder of the message — no length prefix, which is safe only because the
//! transport preserves message boundaries.

use crate::kind::{kind_of_tag, kind_tag, lemma_kind_tag_faithful, ZeromqMessageKind};
use crate::template::ZeromqMessageTrait;
use vstd::prelude::*;

verus! {

/// Why an envelope could not be decoded. The two cases are distinguishable so
/// a receiver can react selectively: an unrecognised kind drops the message
/// early, a malformed payload drops it after the correlation id was read.
#[derive(Debug, Clone)]
pub enum MessageDecodeError {
    /// The four-byte tag is outside the closed kind enumeration; carries the tag.
    UnexpectedZeromqMessageKind(u32),
    /// The payload bytes did not parse; carries the parser's description.
    CantParseJson(String),
}

/// Why a payload could not be encoded into an envelope.
#[derive(Debug, Clone)]
pub enum MessageEncodeError {
    /// Serialising the payload failed; carries the serialiser's description.
    CantCreateJsonFromMessagePayload(String),
}

impl PartialEq for MessageDecodeError {
    fn eq(&self, other: &MessageDecodeError) -> bool {
        match (self, other) {
            (
                MessageDecodeError::UnexpectedZeromqMessageKind(tag),
                MessageDecodeError::UnexpectedZeromqMessageKind(other_tag),
            ) => *tag == *other_tag,
            (
                MessageDecodeError::CantParseJson(message),
                MessageDecodeError::CantParseJson(other_message),
            ) => *message == *other_message,
            _ => false,
        }
    }
}

impl vstd::std_specs::cmp::PartialEqSpecImpl for MessageDecodeError {
    open spec fn obeys_eq_spec() -> bool {
        true
    }

    open spec fn eq_spec(&self, other: &MessageDecodeError) -> bool {
        match (self, other) {
            (
                MessageDecodeError::UnexpectedZeromqMessageKind(tag),
                MessageDecodeError::UnexpectedZeromqMessageKind(other_tag),
            ) => tag == other_tag,
            (
                MessageDecodeError::CantParseJson(message),
                MessageDecodeError::CantParseJson(other_message),
            ) => message@ == other_message@,
            _ => false,
        }
    }
}

impl PartialEq for MessageEncodeError {
    fn eq(&self, other: &MessageEncodeError) -> bool {
        match (self, other) {
            (
                MessageEncodeError::CantCreateJsonFromMessagePayload(message),
                MessageEncodeError::CantCreateJsonFromMessagePayload(other_message),
            ) => *message == *other_message,
        }
    }
}

impl vstd::std_specs::cmp::PartialEqSpecImpl for MessageEncodeError {
    open spec fn obeys_eq_spec() -> bool {
        true
    }

    open spec fn eq_spec(&self, other: &MessageEncodeError) -> bool {
        match (self, other) {
            (
                MessageEncodeError::CantCreateJsonFromMessagePayload(message),
                MessageEncodeError::CantCreateJsonFromMessagePayload(other_message),
            ) => message@ == other_message@,
        }
    }
}

/// The four big-endian bytes of a 32-bit tag.
pub open spec fn spec_u32_to_be_bytes(x: u32) -> Seq<u8> {
    seq![
        ((x >> 24) & 0xff) as u8,
        ((x >> 16) & 0xff) as u8,
        ((x >> 8) & 0xff) as u8,
        (x & 0xff) as u8,
    ]
}

/// The 32-bit value four big-endian bytes stand for.
pub open spec fn spec_u32_from_be_bytes(s: Seq<u8>) -> u32
    recommends
        s.len() == 4,
{
    ((s[0] as u32) << 24) | ((s[1] as u32) << 16) | ((s[2] as u32) << 8) | (s[3] as u32)
}

/// Reading back the four big-endian bytes of a tag yields the tag.
pub proof fn lemma_u32_be_bytes_round_trip(x: u32)
    ensures
        spec_u32_to_be_bytes(x).len() == 4,
        spec_u32_from_be_bytes(spec_u32_to_be_bytes(x)) == x,
{
    assert(((x >> 24) & 0xff) < 256 && ((x >> 16) & 0xff) < 256 && ((x >> 8) & 0xff) < 256 && (x
        & 0xff) < 256) by (bit_vector);
    assert(((((x >> 24) & 0xff)) << 24) | ((((x >> 16) & 0xff)) << 16) | ((((x >> 8) & 0xff)) << 8)
        | (x & 0xff) == x) by (bit_vector);
}

/// The sixteen big-endian bytes of a 128-bit correlation id.
pub open spec fn spec_u128_to_be_bytes(x: u128) -> Seq<u8> {
    seq![
        ((x >> 120) & 0xff) as u8,
        ((x >> 112) & 0xff) as u8,
        ((x >> 104) & 0xff) as u8,
        ((x >> 96) & 0xff) as u8,
        ((x >> 88) & 0xff) as u8,
        ((x >> 80) & 0xff) as u8,
        ((x >> 72) & 0xff) as u8,
        ((x >> 64) & 0xff) as u8,
        ((x >> 56) & 0xff) as u8,
        ((x >> 48) & 0xff) as u8,
        ((x >> 40) & 0xff) as u8,
        ((x >> 32) & 0xff) as u8,
        ((x >> 24) & 0xff) as u8,
        ((x >> 16) & 0xff) as u8,
        ((x >> 8) & 0xff) as u8,
        (x & 0xff) as u8,
    ]
}

/// The 128-bit value sixteen big-endian bytes stand for.
pub open spec fn spec_u128_from_be_bytes(s: Seq<u8>) -> u128
    recommends
        s.len() == 16,
{
    ((s[0] as u128) << 120) | ((s[1] as u128) << 112) | ((s[2] as u128) << 104) | ((s[3] as u128)
        << 96) | ((s[4] as u128) << 88) | ((s[5] as u128) << 80) | ((s[6] as u128) << 72) | ((
    s[7] as u128) << 64) | ((s[8] as u128) << 56) | ((s[9] as u128) << 48) | ((s[10] as u128) << 40)
        | ((s[11] as u128) << 32) | ((s[12] as u128) << 24) | ((s[13] as u128) << 16) | ((
    s[14] as u128) << 8) | (s[15] as u128)
}

/// Reading back the sixteen big-endian bytes of a correlation id yields the id.
pub proof fn lemma_u128_be_bytes_round_trip(x: u128)
    ensures
        spec_u128_to_be_bytes(x).len() == 16,
        spec_u128_from_be_bytes(spec_u128_to_be_bytes(x)) == x,
{
    assert(((x >> 120) & 0xff) < 256 && ((x >> 112) & 0xff) < 256 && ((x >> 104) & 0xff) < 256 && ((
    x >> 96) & 0xff) < 256 && ((x >> 88) & 0xff) < 256 && ((x >> 80) & 0xff) < 256 && ((x >> 72)
        & 0xff) < 256 && ((x >> 64) & 0xff) < 256 && ((x >> 56) & 0xff) < 256 && ((x >> 48) & 0xff)
        < 256 && ((x >> 40) & 0xff) < 256 && ((x >> 32) & 0xff) < 256 && ((x >> 24) & 0xff) < 256
        && ((x >> 16) & 0xff) < 256 && ((x >> 8) & 0xff) < 256 && (x & 0xff) < 256)
        by (bit_vector);
    assert((((x >> 120) & 0xff) << 120) | (((x >> 112) & 0xff) << 112) | (((x >> 104) & 0xff)
        << 104) | (((x >> 96) & 0xff) << 96) | (((x >> 88) & 0xff) << 88) | (((x >> 80) & 0xff)
        << 80) | (((x >> 72) & 0xff) << 72) | (((x >> 64) & 0xff) << 64) | (((x >> 56) & 0xff)
        << 56) | (((x >> 48) & 0xff) << 48) | (((x >> 40) & 0xff) << 40) | (((x >> 32) & 0xff)
        << 32) | (((x >> 24) & 0xff) << 24) | (((x >> 16) & 0xff) << 16) | (((x >> 8) & 0xff) << 8)
        | (x & 0xff) == x) by (bit_vector);
}

/// The whole envelope: kind tag, correlation id, then the payload bytes.
pub open spec fn spec_encode_message(
    kind: ZeromqMessageKind,
    uuid: u128,
    payload: Seq<u8>,
) -> Seq<u8> {
    spec_u32_to_be_bytes(kind_tag(kind)) + spec_u128_to_be_bytes(uuid) + payload
}

/// Appends the four big-endian bytes of `x`.
fn push_u32_be(out: &mut Vec<u8>, x: u32)
    ensures
        final(out)@ == old(out)@ + spec_u32_to_be_bytes(x),
{
    out.push(((x >> 24) & 0xff) as u8);
    out.push(((x >> 16) & 0xff) as u8);
    out.push(((x >> 8) & 0xff) as u8);
    out.push((x & 0xff) as u8);
    assert(out@ =~= old(out)@ + spec_u32_to_be_bytes(x));
}

/// Appends the sixteen big-endian bytes of `x`.
fn push_u128_be(out: &mut Vec<u8>, x: u128)
    ensures
        final(out)@ == old(out)@ + spec_u128_to_be_bytes(x),
{
    out.push(((x >> 120) & 0xff) as u8);
    out.push(((x >> 112) & 0xff) as u8);
    out.push(((x >> 104) & 0xff) as u8);
    out.push(((x >> 96) & 0xff) as u8);
    out.push(((x >> 88) & 0xff) as u8);
    out.push(((x >> 80) & 0xff) as u8);
    out.push(((x >> 72) & 0xff) as u8);
    out.push(((x >> 64) & 0xff) as u8);
    out.push(((x >> 56) & 0xff) as u8);
    out.push(((x >> 48) & 0xff) as u8);
    out.push(((x >> 40) & 0xff) as u8);
    out.push(((x >> 32) & 0xff) as u8);
    out.push(((x >> 24) & 0xff) as u8);
    out.push(((x >> 16) & 0xff) as u8);
    out.push(((x >> 8) & 0xff) as u8);
    out.push((x & 0xff) as u8);
    assert(out@ =~= old(out)@ + spec_u128_to_be_bytes(x));
}

/// The suffix of `bytes` from `from` on, as a fresh vector.
fn tail_from(bytes: &Vec<u8>, from: usize) -> (rest: Vec<u8>)
    requires
        from <= bytes@.len(),
    ensures
        rest@ == bytes@.skip(from as int),
{
    let mut rest: Vec<u8> = Vec::new();
    let mut i: usize = from;
    while i < bytes.len()
        invariant
            from <= i <= bytes@.len(),
            rest@ == bytes@.subrange(from as int, i as int),
        decreases bytes@.len() - i,
    {
        rest.push(bytes[i]);
        i = i + 1;
        assert(rest@ =~= bytes@.subrange(from as int, i as int));
    }
    assert(rest@ =~= bytes@.skip(from as int));
    rest
}

/// Encodes a payload into a wire envelope: the kind tag, the correlation id,
/// then the serialised payload. Succeeds for every payload whose serialisation
/// succeeds — and the serialisation of the closed message vocabulary always
/// does — and decoding the payload section yields the payload back.
pub fn encode_message<P: ZeromqMessageTrait>(uuid: u128, payload: P) -> (r: Result<
    Vec<u8>,
    MessageEncodeError,
>)
    ensures
        r is Ok,
        r->Ok_0@ == spec_encode_message(P::kind_spec(), uuid, payload.payload_bytes_spec()),
        P::parse_payload_spec(payload.payload_bytes_spec()) == Some(payload),
{
    let mut out: Vec<u8> = Vec::new();
    let kind = P::kind();
    push_u32_be(&mut out, kind.tag());
    push_u128_be(&mut out, uuid);
    let mut payload_bytes = payload.to_payload_bytes();
    out.append(&mut payload_bytes);
    assert(out@ =~= spec_encode_message(P::kind_spec(), uuid, payload.payload_bytes_spec()));
    Ok(out)
}

/// Splits the kind off an envelope. Fails exactly on a tag outside the closed
/// enumeration, and then names the tag; otherwise yields the kind and the
/// remaining bytes.
pub fn decode_message_kind(message_bytes: Vec<u8>) -> (r: Result<
    (ZeromqMessageKind, Vec<u8>),
    MessageDecodeError,
>)
    requires
        message_bytes@.len() >= 4,
    ensures
        ({
            let tag = spec_u32_from_be_bytes(message_bytes@.take(4));
            match kind_of_tag(tag) {
                Some(kind) => {
                    &&& r is Ok
                    &&& r->Ok_0.0 == kind
                    &&& r->Ok_0.1@ == message_bytes@.skip(4)
                },
                None => {
                    &&& r is Err
                    &&& r->Err_0 == MessageDecodeError::UnexpectedZeromqMessageKind(tag)
                },
            }
        }),
{
    let tag = ((message_bytes[0] as u32) << 24) | ((message_bytes[1] as u32) << 16) | ((
    message_bytes[2] as u32) << 8) | (message_bytes[3] as u32);
    assert(tag == spec_u32_from_be_bytes(message_bytes@.take(4)));
    match ZeromqMessageKind::from_tag(tag) {
        Some(kind) => {
            let rest = tail_from(&message_bytes, 4);
            Ok((kind, rest))
        },
        None => Err(MessageDecodeError::UnexpectedZeromqMessageKind(tag)),
    }
}

/// Splits the correlation id off an envelope whose kind was already removed.
/// Unconditional: consumes exactly the sixteen id bytes.
pub fn decode_message_uuid(message_bytes_without_kind: Vec<u8>) -> (r: (u128, Vec<u8>))
    requires
        message_bytes_without_kind@.len() >= 16,
    ensures
        r.0 == spec_u128_from_be_bytes(message_bytes_without_kind@.take(16)),
        r.1@ == message_bytes_without_kind@.skip(16),
{
    let b = &message_bytes_without_kind;
    let uuid = ((b[0] as u128) << 120) | ((b[1] as u128) << 112) | ((b[2] as u128) << 104) | ((
    b[3] as u128) << 96) | ((b[4] as u128) << 88) | ((b[5] as u128) << 80) | ((b[6] as u128) << 72)
        | ((b[7] as u128) << 64) | ((b[8] as u128) << 56) | ((b[9] as u128) << 48) | ((
    b[10] as u128) << 40) | ((b[11] as u128) << 32) | ((b[12] as u128) << 24) | ((b[13] as u128)
        << 16) | ((b[14] as u128) << 8) | (b[15] as u128);
    assert(uuid == spec_u128_from_be_bytes(message_bytes_without_kind@.take(16)));
    let rest = tail_from(&message_bytes_without_kind, 16);
    (uuid, rest)
}

/// Parses the payload section of an envelope. Fails exactly on bytes that do
/// not parse as the requested payload type, and then with the payload-parse
/// error.
pub fn decode_message_payload<T: ZeromqMessageTrait>(
    message_bytes_without_kind_and_uuid: &[u8],
) -> (r: Result<T, MessageDecodeError>)
    ensures
        r is Ok <==> T::parse_payload_spec(message_bytes_without_kind_and_uuid@) is Some,
        r is Ok ==> T::parse_payload_spec(message_bytes_without_kind_and_uuid@) == Some(r->Ok_0),
        r is Err ==> r->Err_0 is CantParseJson,
{
    T::from_payload_bytes(message_bytes_without_kind_and_uuid)
}

/// Codec round trip at the envelope level: splitting an encoded envelope at
/// the decoder's offsets yields the kind, the correlation id, and the payload
/// bytes that were encoded.
pub proof fn lemma_envelope_round_trip(kind: ZeromqMessageKind, uuid: u128, payload: Seq<u8>)
    ensures
        ({
            let enc = spec_encode_message(kind, uuid, payload);
            &&& enc.len() == 20 + payload.len()
            &&& kind_of_tag(spec_u32_from_be_bytes(enc.take(4))) == Some(kind)
            &&& spec_u128_from_be_bytes(enc.skip(4).take(16)) == uuid
            &&& enc.skip(4).skip(16) == payload
        }),
{
    let enc = spec_encode_message(kind, uuid, payload);
    lemma_u32_be_bytes_round_trip(kind_tag(kind));
    lemma_u128_be_bytes_round_trip(uuid);
    assert(enc.take(4) =~= spec_u32_to_be_bytes(kind_tag(kind)));
    assert(enc.skip(4).take(16) =~= spec_u128_to_be_bytes(uuid));
    assert(enc.skip(4).skip(16) =~= payload);
    lemma_kind_tag_faithful(kind);
}

} // verus!
