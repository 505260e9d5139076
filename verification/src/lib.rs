//! A fan-out message bus with least-recently-used publisher selection, together
//! with a request/response correlation-and-retry engine.
//!
//! The crate is organised along the data path: `kind` and `messages` define the
//! message vocabulary, `codec` turns messages into wire envelopes and back,
//! `pool` selects an outbound publisher and keeps the retry queue, `store`
//! tracks outstanding requests by correlation id, and `engine` holds the
//! suspension primitives and the batching logic of the dispatch loop.

use vstd::prelude::*;

pub mod codec;
pub mod engine;
pub mod helpers;
pub mod kind;
pub mod locks;
pub mod messages;
pub mod pool;
pub mod store;
pub mod template;

verus! {

/// How many requests form one group, both for sending batches and for the
/// periodic progress log lines.
pub const REQUESTS_COUNT_INSIDE_ONE_GROUP: usize = 25000;

/// How long a group of requests may stay unanswered before it is resent,
/// in milliseconds.
pub const AWAITING_REQUESTS_MAX_DURATION_MILLIS: u64 = 1000;

} // verus!
