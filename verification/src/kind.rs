//! The closed enumeration of message kinds and its wire tags.

use vstd::prelude::*;

verus! {

/// A kind tag on the wire that is outside the closed enumeration is rejected
/// by the decoder, so every accepted envelope carries one of these kinds.
#[derive(Debug, Clone, Copy, PartialEq, Eq, Structural, Hash)]
pub enum ZeromqMessageKind {
    ValueMultiplicationRequest,
    ValueMultiplicationResponse,
}

/// The wire tag of a message kind.
pub open spec fn kind_tag(kind: ZeromqMessageKind) -> u32 {
    match kind {
        ZeromqMessageKind::ValueMultiplicationRequest => 1u32,
        ZeromqMessageKind::ValueMultiplicationResponse => 2u32,
    }
}

/// The message kind a wire tag stands for, if any.
pub open spec fn kind_of_tag(tag: u32) -> Option<ZeromqMessageKind> {
    if tag == 1u32 {
        Some(ZeromqMessageKind::ValueMultiplicationRequest)
    } else if tag == 2u32 {
        Some(ZeromqMessageKind::ValueMultiplicationResponse)
    } else {
        None
    }
}

impl ZeromqMessageKind {
    /// The wire tag of this kind.
    pub fn tag(&self) -> (tag: u32)
        ensures
            tag == kind_tag(*self),
    {
        match self {
            ZeromqMessageKind::ValueMultiplicationRequest => 1,
            ZeromqMessageKind::ValueMultiplicationResponse => 2,
        }
    }

    /// The kind a wire tag stands for; `None` for a tag outside the enumeration.
    pub fn from_tag(tag: u32) -> (kind: Option<ZeromqMessageKind>)
        ensures
            kind == kind_of_tag(tag),
    {
        if tag == 1 {
            Some(ZeromqMessageKind::ValueMultiplicationRequest)
        } else if tag == 2 {
            Some(ZeromqMessageKind::ValueMultiplicationResponse)
        } else {
            None
        }
    }
}

/// Tags are faithful: every kind's tag maps back to that kind, so distinct
/// kinds carry distinct tags.
pub proof fn lemma_kind_tag_faithful(kind: ZeromqMessageKind)
    ensures
        kind_of_tag(kind_tag(kind)) == Some(kind),
{
}

} // verus!
