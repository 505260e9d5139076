//! The contract every message payload type fulfils: a fixed kind, a byte
//! serialisation, and a parse that inverts it.

use crate::codec::MessageDecodeError;
use crate::kind::ZeromqMessageKind;
use vstd::prelude::*;

verus! {

/// A message payload that can travel in a wire envelope.
///
/// `payload_bytes_spec` and `parse_payload_spec` are the mathematical faces of
/// the two executable methods; `to_payload_bytes` also promises that parsing
/// its output yields the value back, which gives every implementor the codec
/// round trip.
pub trait ZeromqMessageTrait: Sized {
    /// The kind tag this payload travels under.
    spec fn kind_spec() -> ZeromqMessageKind;

    /// The serialised bytes of this payload.
    spec fn payload_bytes_spec(self) -> Seq<u8>;

    /// What parsing the given bytes as this payload yields, if anything.
    spec fn parse_payload_spec(bytes: Seq<u8>) -> Option<Self>;

    /// The kind tag this payload travels under.
    fn kind() -> (kind: ZeromqMessageKind)
        ensures
            kind == Self::kind_spec(),
    ;

    /// Serialises the payload; parsing the result yields the payload back.
    fn to_payload_bytes(&self) -> (bytes: Vec<u8>)
        ensures
            bytes@ == self.payload_bytes_spec(),
            Self::parse_payload_spec(bytes@) == Some(*self),
    ;

    /// Parses payload bytes; fails exactly on bytes that do not parse, and
    /// then always with the payload-parse error.
    fn from_payload_bytes(bytes: &[u8]) -> (r: Result<Self, MessageDecodeError>)
        ensures
            r is Ok <==> Self::parse_payload_spec(bytes@) is Some,
            r is Ok ==> Self::parse_payload_spec(bytes@) == Some(r->Ok_0),
            r is Err ==> r->Err_0 is CantParseJson,
    ;
}

} // verus!
