//! The correlation store: the table of outstanding requests, keyed by
//! correlation id. An entry is owned by the store from insertion until the
//! receive path removes it on a matching response; at most one entry per id
//! exists at a time.

use vstd::prelude::*;

verus! {

/// One outstanding request: the operands that were sent and the answer owed.
#[derive(Debug, Clone, Copy, PartialEq, Eq, Structural)]
pub struct RequestData {
    pub value: i64,
    pub multiplier: i64,
    pub expected_result: i64,
}

impl RequestData {
    /// A fresh pending request: the expected result is the exact product.
    pub fn new(value: i64, multiplier: i64) -> (r: RequestData)
        requires
            i64::MIN <= value * multiplier <= i64::MAX,
        ensures
            r.value == value,
            r.multiplier == multiplier,
            r.expected_result == value * multiplier,
    {
        RequestData { value, multiplier, expected_result: value * multiplier }
    }
}

/// Whether some entry carries the given correlation id.
pub open spec fn contains_id(entries: Seq<(u128, RequestData)>, id: u128) -> bool {
    exists|i: int| 0 <= i < entries.len() && entries[i].0 == id
}

/// No two entries carry the same correlation id.
pub open spec fn distinct_ids(entries: Seq<(u128, RequestData)>) -> bool {
    forall|i: int, j: int| 0 <= i < j < entries.len() ==> entries[i].0 != entries[j].0
}

/// The position of the entry carrying the given id; meaningful only when the
/// id is present, and unique when ids are distinct.
pub open spec fn index_of_id(entries: Seq<(u128, RequestData)>, id: u128) -> int {
    choose|i: int| 0 <= i < entries.len() && entries[i].0 == id
}

/// The entries with the entry carrying the given id taken out, if present.
pub open spec fn remove_id_spec(entries: Seq<(u128, RequestData)>, id: u128) -> Seq<
    (u128, RequestData),
> {
    if contains_id(entries, id) {
        entries.remove(index_of_id(entries, id))
    } else {
        entries
    }
}

/// The table of outstanding requests. Its view is the sequence of
/// (correlation id, request) pairs in insertion order.
#[derive(Debug, Clone)]
pub struct CorrelationStore {
    entries: Vec<(u128, RequestData)>,
}

impl View for CorrelationStore {
    type V = Seq<(u128, RequestData)>;

    closed spec fn view(&self) -> Seq<(u128, RequestData)> {
        self.entries@
    }
}

impl CorrelationStore {
    /// The store's invariant: ids are pairwise distinct.
    pub open spec fn wf(&self) -> bool {
        distinct_ids(self@)
    }

    /// An empty store.
    pub fn new() -> (s: CorrelationStore)
        ensures
            s@ == Seq::<(u128, RequestData)>::empty(),
            s.wf(),
    {
        CorrelationStore { entries: Vec::new() }
    }

    /// How many requests are outstanding.
    pub fn len(&self) -> (n: usize)
        ensures
            n == self@.len(),
    {
        self.entries.len()
    }

    /// Whether no request is outstanding.
    pub fn is_empty(&self) -> (b: bool)
        ensures
            b <==> self@.len() == 0,
    {
        self.entries.len() == 0
    }

    /// The position of the entry with the given id, if one exists.
    fn position_of(&self, id: u128) -> (r: Option<usize>)
        ensures
            r is Some <==> contains_id(self@, id),
            r is Some ==> r->Some_0 < self@.len() && self@[r->Some_0 as int].0 == id,
    {
        let mut i: usize = 0;
        while i < self.entries.len()
            invariant
                i <= self@.len(),
                self.entries@ == self@,
                forall|j: int| 0 <= j < i ==> self@[j].0 != id,
            decreases self@.len() - i,
        {
            if self.entries[i].0 == id {
                return Some(i);
            }
            i = i + 1;
        }
        None
    }

    /// Whether a request with the given id is outstanding.
    pub fn contains(&self, id: u128) -> (b: bool)
        ensures
            b == contains_id(self@, id),
    {
        self.position_of(id).is_some()
    }

    /// The outstanding request with the given id, without removing it.
    pub fn lookup(&self, id: u128) -> (r: Option<RequestData>)
        requires
            self.wf(),
        ensures
            r is Some <==> contains_id(self@, id),
            r is Some ==> r == Some(self@[index_of_id(self@, id)].1),
    {
        match self.position_of(id) {
            Some(i) => {
                proof {
                    lemma_distinct_index_unique(self@, id, i as int);
                }
                Some(self.entries[i].1)
            },
            None => None,
        }
    }

    /// Records a fresh request. Never overwrites: an id already present leaves
    /// the store unchanged, and the result says whether the entry was added.
    pub fn insert(&mut self, id: u128, data: RequestData) -> (inserted: bool)
        requires
            old(self).wf(),
        ensures
            final(self).wf(),
            inserted == !contains_id(old(self)@, id),
            inserted ==> final(self)@ == old(self)@.push((id, data)),
            !inserted ==> final(self)@ == old(self)@,
    {
        if self.position_of(id).is_some() {
            false
        } else {
            self.entries.push((id, data));
            true
        }
    }

    /// Removes the request with the given id and hands its data out, or `None`
    /// for an unknown id. In either case the other entries stay, in order.
    pub fn remove_and_take(&mut self, id: u128) -> (r: Option<RequestData>)
        requires
            old(self).wf(),
        ensures
            final(self).wf(),
            r is Some <==> contains_id(old(self)@, id),
            r is Some ==> r == Some(old(self)@[index_of_id(old(self)@, id)].1),
            final(self)@ == remove_id_spec(old(self)@, id),
    {
        match self.position_of(id) {
            Some(i) => {
                proof {
                    lemma_distinct_index_unique(self@, id, i as int);
                }
                let (_, data) = self.entries.remove(i);
                proof {
                    lemma_remove_keeps_distinct(old(self)@, index_of_id(old(self)@, id));
                }
                Some(data)
            },
            None => None,
        }
    }

    /// A snapshot of all outstanding (id, request) pairs, in insertion order:
    /// the resend set of a timed-out cycle.
    pub fn pending_pairs(&self) -> (pairs: Vec<(u128, RequestData)>)
        ensures
            pairs@ == self@,
    {
        let mut pairs: Vec<(u128, RequestData)> = Vec::new();
        let mut i: usize = 0;
        while i < self.entries.len()
            invariant
                i <= self@.len(),
                self.entries@ == self@,
                pairs@ == self@.take(i as int),
            decreases self@.len() - i,
        {
            pairs.push(self.entries[i]);
            i = i + 1;
            assert(pairs@ =~= self@.take(i as int));
        }
        assert(pairs@ =~= self@);
        pairs
    }
}

/// The entries left after removing, first to last, every id in `answered` —
/// the store's state after that sequence of matched responses.
pub open spec fn drain_ids(
    entries: Seq<(u128, RequestData)>,
    answered: Seq<u128>,
) -> Seq<(u128, RequestData)>
    decreases answered.len(),
{
    if answered.len() == 0 {
        entries
    } else {
        drain_ids(remove_id_spec(entries, answered[0]), answered.skip(1))
    }
}

/// Correlation completeness: after any sequence of matched responses, the
/// entries still outstanding are exactly those whose id was never answered,
/// each with its original id and request data — so a timed-out cycle resends
/// exactly the unanswered requests; and if every outstanding id was answered,
/// nothing is left and the empty-store condition holds.
pub proof fn lemma_correlation_completeness(
    entries: Seq<(u128, RequestData)>,
    answered: Seq<u128>,
)
    requires
        distinct_ids(entries),
    ensures
        ({
            let remaining = drain_ids(entries, answered);
            &&& distinct_ids(remaining)
            &&& forall|p: (u128, RequestData)| #[trigger]
                remaining.contains(p) <==> entries.contains(p) && !answered.contains(p.0)
            &&& (forall|i: int| 0 <= i < entries.len() ==> answered.contains(entries[i].0))
                ==> remaining.len() == 0
        }),
    decreases answered.len(),
{
    let remaining = drain_ids(entries, answered);
    if answered.len() == 0 {
        assert(forall|p: (u128, RequestData)| #[trigger]
            remaining.contains(p) <==> entries.contains(p) && !answered.contains(p.0));
        if forall|i: int| 0 <= i < entries.len() ==> answered.contains(entries[i].0) {
            if entries.len() > 0 {
                assert(answered.contains(entries[0].0));
                assert(false);
            }
        }
    } else {
        let first = answered[0];
        let rest = answered.skip(1);
        let shorter = remove_id_spec(entries, first);
        lemma_remove_id_membership(entries, first);
        lemma_correlation_completeness(shorter, rest);
        assert forall|p: (u128, RequestData)| #[trigger]
            remaining.contains(p) <==> entries.contains(p) && !answered.contains(p.0) by {
            assert(answered.contains(p.0) <==> (p.0 == first || rest.contains(p.0))) by {
                if answered.contains(p.0) {
                    let i = choose|i: int|
                        0 <= i < answered.len() && answered[i] == p.0;
                    if i > 0 {
                        assert(rest[i - 1] == p.0);
                    }
                }
                if rest.contains(p.0) {
                    let i = choose|i: int| 0 <= i < rest.len() && rest[i] == p.0;
                    assert(answered[i + 1] == p.0);
                }
            }
        }
        if forall|i: int| 0 <= i < entries.len() ==> answered.contains(entries[i].0) {
            if remaining.len() > 0 {
                assert(remaining.contains(remaining[0]));
            }
        }
    }
}

/// Keeps every entry whose id is not the given one.
pub open spec fn keeps_id_out(id: u128) -> spec_fn((u128, RequestData)) -> bool {
    |p: (u128, RequestData)| p.0 != id
}

/// Keeps every entry whose id is not among the answered ones.
pub open spec fn unanswered(answered: Seq<u128>) -> spec_fn((u128, RequestData)) -> bool {
    |p: (u128, RequestData)| !answered.contains(p.0)
}

/// Correlation completeness, order included: draining the answered ids leaves
/// the unanswered entries exactly, in their original order — the store's state
/// after any sequence of matched responses is the filtered original.
pub proof fn lemma_drain_ids_is_filter(entries: Seq<(u128, RequestData)>, answered: Seq<u128>)
    requires
        distinct_ids(entries),
    ensures
        drain_ids(entries, answered) == entries.filter(unanswered(answered)),
    decreases answered.len(),
{
    if answered.len() == 0 {
        assert forall|i: int| 0 <= i < entries.len() implies unanswered(answered)(entries[i]) by {
        }
        lemma_filter_identity(entries, unanswered(answered));
    } else {
        let first = answered[0];
        let rest = answered.skip(1);
        lemma_remove_id_is_filter(entries, first);
        lemma_remove_id_membership(entries, first);
        lemma_drain_ids_is_filter(remove_id_spec(entries, first), rest);
        lemma_filter_compose(entries, keeps_id_out(first), unanswered(rest));
        assert forall|p: (u128, RequestData)|
            #[trigger] unanswered(answered)(p) == (keeps_id_out(first)(p) && unanswered(rest)(
            p,
        )) by {
            if answered.contains(p.0) {
                let i = choose|i: int| 0 <= i < answered.len() && answered[i] == p.0;
                if i > 0 {
                    assert(rest[i - 1] == p.0);
                }
            }
            if rest.contains(p.0) {
                let i = choose|i: int| 0 <= i < rest.len() && rest[i] == p.0;
                assert(answered[i + 1] == p.0);
            }
        }
        assert(unanswered(answered) =~= (|p: (u128, RequestData)|
            keeps_id_out(first)(p) && unanswered(rest)(p)));
    }
}

/// Removing one id is filtering it out, order preserved: with distinct ids the
/// single matching entry leaves and every other entry stays in place.
proof fn lemma_remove_id_is_filter(entries: Seq<(u128, RequestData)>, id: u128)
    requires
        distinct_ids(entries),
    ensures
        remove_id_spec(entries, id) == entries.filter(keeps_id_out(id)),
    decreases entries.len(),
{
    reveal(Seq::filter);
    if entries.len() == 0 {
    } else {
        let last = entries.last();
        let front = entries.drop_last();
        assert(distinct_ids(front)) by {
            assert(forall|a: int| 0 <= a < front.len() ==> front[a] == entries[a]);
        }
        lemma_remove_id_is_filter(front, id);
        if last.0 == id {
            assert(!contains_id(front, id)) by {
                if contains_id(front, id) {
                    let w = choose|w: int| 0 <= w < front.len() && front[w].0 == id;
                    assert(entries[w].0 == entries[entries.len() - 1].0);
                }
            }
            lemma_distinct_index_unique(entries, id, entries.len() - 1);
            assert(contains_id(entries, id));
            assert(entries.remove(entries.len() - 1) =~= front);
        } else {
            if contains_id(entries, id) {
                let i = index_of_id(entries, id);
                assert(0 <= i < entries.len() && entries[i].0 == id);
                assert(i != entries.len() - 1);
                assert(contains_id(front, id)) by {
                    assert(front[i].0 == id);
                }
                lemma_distinct_index_unique(front, id, i);
                assert(entries.remove(i) =~= front.remove(i).push(last));
            } else {
                assert(!contains_id(front, id)) by {
                    if contains_id(front, id) {
                        let w = choose|w: int| 0 <= w < front.len() && front[w].0 == id;
                        assert(entries[w].0 == id);
                    }
                }
                assert(front.filter(keeps_id_out(id)).push(last) =~= entries);
            }
        }
    }
}

/// Filtering a sequence that a predicate accepts throughout changes nothing.
proof fn lemma_filter_identity<A>(s: Seq<A>, pred: spec_fn(A) -> bool)
    requires
        forall|i: int| 0 <= i < s.len() ==> pred(#[trigger] s[i]),
    ensures
        s.filter(pred) == s,
    decreases s.len(),
{
    reveal(Seq::filter);
    if s.len() > 0 {
        lemma_filter_identity(s.drop_last(), pred);
        assert(s.drop_last().push(s.last()) =~= s);
    }
}

/// Filtering twice is filtering by the conjunction.
proof fn lemma_filter_compose<A>(s: Seq<A>, first: spec_fn(A) -> bool, second: spec_fn(A) -> bool)
    ensures
        s.filter(first).filter(second) == s.filter(|x: A| first(x) && second(x)),
    decreases s.len(),
{
    reveal(Seq::filter);
    if s.len() == 0 {
    } else {
        let front = s.drop_last();
        let last = s.last();
        lemma_filter_compose(front, first, second);
        if first(last) {
            lemma_filter_push(front.filter(first), last, second);
        }
    }
}

/// Filtering a pushed element keeps it exactly when the predicate accepts it.
proof fn lemma_filter_push<A>(s: Seq<A>, x: A, pred: spec_fn(A) -> bool)
    ensures
        s.push(x).filter(pred) == (if pred(x) {
            s.filter(pred).push(x)
        } else {
            s.filter(pred)
        }),
{
    reveal(Seq::filter);
    assert(s.push(x).drop_last() =~= s);
    assert(s.push(x).last() == x);
}

/// Removing one id removes exactly the entries that carry it, and keeps the
/// rest distinct.
proof fn lemma_remove_id_membership(entries: Seq<(u128, RequestData)>, id: u128)
    requires
        distinct_ids(entries),
    ensures
        distinct_ids(remove_id_spec(entries, id)),
        forall|p: (u128, RequestData)| #[trigger]
            remove_id_spec(entries, id).contains(p) <==> entries.contains(p) && p.0 != id,
{
    let shorter = remove_id_spec(entries, id);
    if contains_id(entries, id) {
        let i = index_of_id(entries, id);
        assert(0 <= i < entries.len() && entries[i].0 == id);
        lemma_remove_keeps_distinct(entries, i);
        assert forall|p: (u128, RequestData)| #[trigger]
            shorter.contains(p) <==> entries.contains(p) && p.0 != id by {
            if shorter.contains(p) {
                let a = choose|a: int| 0 <= a < shorter.len() && shorter[a] == p;
                let a0 = if a < i {
                    a
                } else {
                    a + 1
                };
                assert(entries[a0] == p);
            }
            if entries.contains(p) && p.0 != id {
                let j = choose|j: int| 0 <= j < entries.len() && entries[j] == p;
                if j < i {
                    assert(shorter[j] == p);
                } else {
                    assert(shorter[j - 1] == p);
                }
            }
        }
    } else {
        assert forall|p: (u128, RequestData)| #[trigger]
            shorter.contains(p) <==> entries.contains(p) && p.0 != id by {
            if entries.contains(p) {
                let j = choose|j: int| 0 <= j < entries.len() && entries[j] == p;
                assert(p.0 != id);
            }
        }
    }
}

/// With distinct ids, any position holding the id is the position `index_of_id`
/// picks.
proof fn lemma_distinct_index_unique(entries: Seq<(u128, RequestData)>, id: u128, i: int)
    requires
        distinct_ids(entries),
        0 <= i < entries.len(),
        entries[i].0 == id,
    ensures
        index_of_id(entries, id) == i,
{
    let c = index_of_id(entries, id);
    assert(0 <= c < entries.len() && entries[c].0 == id);
}

/// Removing an entry keeps the remaining ids distinct.
proof fn lemma_remove_keeps_distinct(entries: Seq<(u128, RequestData)>, i: int)
    requires
        distinct_ids(entries),
        0 <= i < entries.len(),
    ensures
        distinct_ids(entries.remove(i)),
{
    let shorter = entries.remove(i);
    assert forall|a: int, b: int| 0 <= a < b < shorter.len() implies shorter[a].0 != shorter[b].0 by {
        let a0 = if a < i {
            a
        } else {
            a + 1
        };
        let b0 = if b < i {
            b
        } else {
            b + 1
        };
        assert(shorter[a] == entries[a0] && shorter[b] == entries[b0]);
    }
}

} // verus!
