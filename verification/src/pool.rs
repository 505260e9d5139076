//! The publisher pool: a fixed list of outbound publisher slots with
//! least-recently-used selection, the retry queue of messages whose send
//! failed, and the processed-message counter.
//!
//! The pool holds what the dispatcher decides on — the per-slot last-action
//! timestamps and the queued payloads. The sockets themselves, and the sends,
//! live with the caller: a cycle asks [`PublisherPool::next_to_send`] and
//! [`PublisherPool::select_target`], performs the send, and reports the
//! outcome through [`PublisherPool::record_send_outcome`].

use vstd::prelude::*;

verus! {

/// One publisher slot: when its channel was last used for a send attempt,
/// in nanoseconds relative to the process-start epoch.
#[derive(Debug, Clone, Copy)]
pub struct BusPublisherData {
    last_action_time: u64,
}

impl View for BusPublisherData {
    type V = u64;

    closed spec fn view(&self) -> u64 {
        self.last_action_time
    }
}

impl BusPublisherData {
    /// A fresh slot, last used at the given time.
    pub fn new(now: u64) -> (r: BusPublisherData)
        ensures
            r@ == now,
    {
        BusPublisherData { last_action_time: now }
    }

    /// When this slot was last used for a send attempt.
    pub fn get_last_action_time(&self) -> (t: u64)
        ensures
            t == self@,
    {
        self.last_action_time
    }

    /// Marks the slot as used now — after every send attempt, success or
    /// failure alike.
    pub fn update_last_action_time(&mut self, now: u64)
        ensures
            final(self)@ == now,
    {
        self.last_action_time = now;
    }
}

/// The pool of publisher slots with its retry queue and processed counter.
#[derive(Debug)]
pub struct PublisherPool {
    publishers: Vec<BusPublisherData>,
    errored_messages: Vec<Vec<u8>>,
    processed_count: u64,
}

impl PublisherPool {
    /// The last-action timestamp of each slot, by slot index.
    pub closed spec fn timestamps(&self) -> Seq<u64> {
        self.publishers@.map_values(|p: BusPublisherData| p@)
    }

    /// The queued payloads of failed sends, oldest first.
    pub closed spec fn retry_queue(&self) -> Seq<Seq<u8>> {
        self.errored_messages@.map_values(|m: Vec<u8>| m@)
    }

    /// How many messages were sent successfully.
    pub closed spec fn processed(&self) -> u64 {
        self.processed_count
    }

    /// A pool of `publisher_count` fresh slots, all last used at `now`, with
    /// an empty retry queue and a zero counter.
    pub fn new(publisher_count: usize, now: u64) -> (pool: PublisherPool)
        ensures
            pool.timestamps() == Seq::new(publisher_count as nat, |i: int| now),
            pool.retry_queue() == Seq::<Seq<u8>>::empty(),
            pool.processed() == 0,
    {
        let mut publishers: Vec<BusPublisherData> = Vec::new();
        let mut i: usize = 0;
        while i < publisher_count
            invariant
                i <= publisher_count,
                publishers@.len() == i,
                forall|j: int| 0 <= j < i ==> publishers@[j]@ == now,
            decreases publisher_count - i,
        {
            publishers.push(BusPublisherData::new(now));
            i = i + 1;
        }
        let pool = PublisherPool { publishers, errored_messages: Vec::new(), processed_count: 0 };
        proof {
            assert(pool.timestamps() =~= Seq::new(publisher_count as nat, |i: int| now));
            assert(pool.retry_queue() =~= Seq::<Seq<u8>>::empty());
        }
        pool
    }

    /// How many publisher slots the pool has.
    pub fn publisher_count(&self) -> (n: usize)
        ensures
            n == self.timestamps().len(),
    {
        self.publishers.len()
    }

    /// How many payloads wait in the retry queue.
    pub fn retry_len(&self) -> (n: usize)
        ensures
            n == self.retry_queue().len(),
    {
        self.errored_messages.len()
    }

    /// How many messages were sent successfully.
    pub fn processed_messages(&self) -> (n: u64)
        ensures
            n == self.processed(),
    {
        self.processed_count
    }

    /// The last-action timestamp of one slot.
    pub fn timestamp_of(&self, index: usize) -> (t: u64)
        requires
            index < self.timestamps().len(),
        ensures
            t == self.timestamps()[index as int],
    {
        self.publishers[index].get_last_action_time()
    }

    /// Least-recently-used selection: the slot whose last-action timestamp is
    /// oldest; ties favour the lowest index. The two conditions pin the index:
    /// it is the first position holding the minimum timestamp.
    pub fn select_target(&self) -> (index: usize)
        requires
            self.timestamps().len() > 0,
        ensures
            index < self.timestamps().len(),
            forall|j: int|
                0 <= j < self.timestamps().len() ==> self.timestamps()[index as int]
                    <= self.timestamps()[j],
            forall|j: int| 0 <= j < index ==> self.timestamps()[index as int] < self.timestamps()[j],
    {
        let mut best: usize = 0;
        let mut i: usize = 1;
        while i < self.publishers.len()
            invariant
                best < i <= self.timestamps().len(),
                self.publishers@.len() == self.timestamps().len(),
                forall|j: int| 0 <= j < i ==> self.timestamps()[best as int] <= self.timestamps()[j],
                forall|j: int| 0 <= j < best ==> self.timestamps()[best as int] < self.timestamps()[j],
            decreases self.publishers@.len() - i,
        {
            if self.publishers[i].get_last_action_time()
                < self.publishers[best].get_last_action_time() {
                best = i;
            }
            i = i + 1;
        }
        best
    }

    /// Begins a cycle: a non-empty retry queue is always drained first, oldest
    /// payload first. Only when `None` comes back — the retry queue was empty —
    /// may the caller read fresh input from the ingress channel.
    pub fn next_to_send(&mut self) -> (m: Option<Vec<u8>>)
        ensures
            final(self).timestamps() == old(self).timestamps(),
            final(self).processed() == old(self).processed(),
            old(self).retry_queue().len() == 0 ==> m is None
                && final(self).retry_queue() == old(self).retry_queue(),
            old(self).retry_queue().len() > 0 ==> m is Some
                && m->Some_0@ == old(self).retry_queue()[0]
                && final(self).retry_queue() == old(self).retry_queue().skip(1),
    {
        if self.errored_messages.len() > 0 {
            let message = self.errored_messages.remove(0);
            proof {
                assert(self.retry_queue() =~= old(self).retry_queue().skip(1));
            }
            Some(message)
        } else {
            None
        }
    }

    /// Records the outcome of a send attempt on one slot: the slot's timestamp
    /// becomes `now` unconditionally — a failing slot is not deprioritised — a
    /// success counts, and a failure queues the payload for retry.
    pub fn record_send_outcome(
        &mut self,
        index: usize,
        message_bytes: Vec<u8>,
        success: bool,
        now: u64,
    )
        requires
            index < old(self).timestamps().len(),
            old(self).processed() < u64::MAX,
        ensures
            final(self).timestamps() == old(self).timestamps().update(index as int, now),
            success ==> final(self).retry_queue() == old(self).retry_queue()
                && final(self).processed() == old(self).processed() + 1,
            !success ==> final(self).retry_queue() == old(self).retry_queue().push(message_bytes@)
                && final(self).processed() == old(self).processed(),
    {
        if success {
            self.processed_count = self.processed_count + 1;
        } else {
            self.errored_messages.push(message_bytes);
            proof {
                assert(self.retry_queue() =~= old(self).retry_queue().push(message_bytes@));
            }
        }
        let mut slot = self.publishers[index];
        slot.update_last_action_time(now);
        self.publishers.set(index, slot);
        proof {
            assert(self.timestamps() =~= old(self).timestamps().update(index as int, now));
        }
    }
}

/// Least-recently-used rotation: with pairwise distinct timestamps the
/// selected slot is the strict minimum; and after a dispatch that advances its
/// timestamp past every other, that slot alone holds the maximum — so the
/// selection rotates through the pool.
pub proof fn lemma_lru_rotation(ts: Seq<u64>, index: int, now: u64)
    requires
        0 <= index < ts.len(),
        forall|j: int| 0 <= j < ts.len() ==> ts[index] <= ts[j],
        forall|i: int, j: int| 0 <= i < j < ts.len() ==> ts[i] != ts[j],
        forall|j: int| 0 <= j < ts.len() ==> ts[j] < now,
    ensures
        forall|j: int| 0 <= j < ts.len() && j != index ==> ts[index] < ts[j],
        forall|j: int|
            0 <= j < ts.len() && j != index ==> ts.update(index, now)[j] < ts.update(
                index,
                now,
            )[index],
{
}

} // verus!
