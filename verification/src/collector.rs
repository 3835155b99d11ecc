//! The result collector: accumulates one record per claimed URL, in
//! arrival order, and can tell when every submitted URL has reported.

use vstd::prelude::*;
use crate::backlog::Backlog;
use crate::record::{CheckRecord, RecordModel};

verus! {

/// The models of a sequence of records.
pub open spec fn record_models(s: Seq<CheckRecord>) -> Seq<RecordModel> {
    s.map_values(|r: CheckRecord| r@)
}

/// An append-only accumulation of records, expecting exactly one per
/// submitted URL.
pub struct ResultCollector {
    records: Vec<CheckRecord>,
    expected: usize,
}

impl ResultCollector {
    /// The records received so far, in arrival order.
    pub closed spec fn collected(&self) -> Seq<RecordModel> {
        record_models(self.records@)
    }

    /// How many records are owed in all.
    pub closed spec fn expected_count(&self) -> nat {
        self.expected as nat
    }

    /// Every owed record has arrived.
    pub open spec fn complete(&self) -> bool {
        self.collected().len() == self.expected_count()
    }

    pub fn new(expected: usize) -> (c: Self)
        ensures
            c.collected() == Seq::<RecordModel>::empty(),
            c.expected_count() == expected,
    {
        let c = ResultCollector { records: Vec::new(), expected };
        proof {
            assert(c.collected() =~= Seq::<RecordModel>::empty());
        }
        c
    }

    /// Receives one record; the collector only ever appends, and a record
    /// is never altered after arrival.
    pub fn push(&mut self, r: CheckRecord)
        requires
            old(self).collected().len() < old(self).expected_count(),
        ensures
            final(self).collected() == old(self).collected().push(r@),
            final(self).expected_count() == old(self).expected_count(),
    {
        self.records.push(r);
        proof {
            assert(self.collected() =~= old(self).collected().push(self.records@.last()@));
        }
    }

    pub fn count(&self) -> (n: usize)
        ensures
            n == self.collected().len(),
    {
        self.records.len()
    }

    /// Whether every owed record has arrived.
    pub fn is_complete(&self) -> (b: bool)
        ensures
            b == self.complete(),
    {
        self.records.len() == self.expected
    }

    /// Hands the finished sequence over, exactly once, in arrival order.
    pub fn into_records(self) -> (v: Vec<CheckRecord>)
        ensures
            record_models(v@) == self.collected(),
    {
        self.records
    }
}

/// One record per URL, for every batch and any number of workers: once the
/// backlog is depleted and the collector holds one record per served
/// claim, it holds exactly as many records as URLs were submitted — no
/// loss, no duplication.
pub proof fn lemma_one_record_per_url(b: &Backlog, c: &ResultCollector)
    requires
        b.wf(),
        b.depleted(),
        c.collected().len() == b.claimed().len(),
        c.expected_count() == b.submitted().len(),
    ensures
        c.complete(),
        c.collected().len() == b.submitted().len(),
{
    crate::backlog::lemma_depleted_claims_whole_batch(b);
}

/// The records of a complete run as the collector sees them: position `k`
/// of the arrival order names the record of batch position `order[k]`.
pub open spec fn arrived(records: Seq<RecordModel>, order: Seq<int>) -> Seq<RecordModel> {
    Seq::new(order.len(), |k: int| records[order[k]])
}

/// Some position of the arrival order names batch position `j`.
pub open spec fn reports(order: Seq<int>, j: int) -> bool {
    exists|k: int| 0 <= k < order.len() && #[trigger] order[k] == j
}

/// An arrival order of a complete run over `n` URLs: every batch position
/// reports exactly once, in some interleaving.
pub open spec fn is_arrival_order(order: Seq<int>, n: int) -> bool {
    &&& order.len() == n
    &&& forall|k: int| 0 <= k < order.len() ==> 0 <= #[trigger] order[k] < n
    &&& forall|k1: int, k2: int|
        0 <= k1 < k2 < order.len() ==> #[trigger] order[k1] != #[trigger] order[k2]
    &&& forall|j: int| 0 <= j < n ==> #[trigger] reports(order, j)
}

/// Whatever order a complete run delivers the records in, it delivers the
/// batch's records themselves: the collected multiset is the batch's.
pub proof fn lemma_arrival_preserves_records(records: Seq<RecordModel>, order: Seq<int>)
    requires
        is_arrival_order(order, records.len() as int),
    ensures
        arrived(records, order).to_multiset() == records.to_multiset(),
    decreases records.len(),
{
    broadcast use vstd::seq_lib::group_to_multiset_ensures;

    let n = records.len() as int;
    if n == 0 {
        assert(arrived(records, order) =~= records);
    } else {
        assert(reports(order, n - 1));
        let k0 = choose|k: int| 0 <= k < order.len() && #[trigger] order[k] == n - 1;
        let rest_records = records.drop_last();
        let rest_order = order.remove(k0);
        assert forall|k: int| 0 <= k < rest_order.len() implies 0 <= #[trigger] rest_order[k] < n
            - 1 by {
            if k < k0 {
                assert(rest_order[k] == order[k]);
            } else {
                assert(rest_order[k] == order[k + 1]);
            }
        }
        assert forall|k1: int, k2: int|
            0 <= k1 < k2 < rest_order.len() implies #[trigger] rest_order[k1]
            != #[trigger] rest_order[k2] by {
            let o1 = if k1 < k0 {
                k1
            } else {
                k1 + 1
            };
            let o2 = if k2 < k0 {
                k2
            } else {
                k2 + 1
            };
            assert(rest_order[k1] == order[o1]);
            assert(rest_order[k2] == order[o2]);
        }
        assert forall|j: int| 0 <= j < n - 1 implies #[trigger] reports(rest_order, j) by {
            assert(reports(order, j));
            let k = choose|k: int| 0 <= k < order.len() && #[trigger] order[k] == j;
            if k < k0 {
                assert(rest_order[k] == j);
            } else {
                assert(k > k0);
                assert(rest_order[k - 1] == j);
            }
        }
        assert(is_arrival_order(rest_order, n - 1));
        lemma_arrival_preserves_records(rest_records, rest_order);
        assert forall|k: int|
            0 <= k < rest_order.len() implies #[trigger] arrived(rest_records, rest_order)[k]
            == arrived(records, order).remove(k0)[k] by {
            if k < k0 {
                assert(arrived(records, order).remove(k0)[k] == records[order[k]]);
            } else {
                assert(arrived(records, order).remove(k0)[k] == records[order[k + 1]]);
            }
            assert(rest_records[rest_order[k]] == records[rest_order[k]]);
        }
        assert(arrived(rest_records, rest_order) =~= arrived(records, order).remove(k0));
        assert(arrived(records, order).remove(k0).to_multiset() =~= arrived(
            records,
            order,
        ).to_multiset().remove(records[n - 1]));
        assert(arrived(records, order).to_multiset().contains(records[n - 1])) by {
            assert(arrived(records, order)[k0] == records[n - 1]);
        }
        assert(records =~= rest_records.push(records[n - 1]));
        assert(arrived(records, order).to_multiset() =~= records.to_multiset());
    }
}

/// Changing the worker count changes at most the arrival order: two
/// complete runs over the same batch collect the same multiset of
/// records, whatever interleavings their worker pools produced.
pub proof fn lemma_worker_count_preserves_records(
    records: Seq<RecordModel>,
    order1: Seq<int>,
    order2: Seq<int>,
)
    requires
        is_arrival_order(order1, records.len() as int),
        is_arrival_order(order2, records.len() as int),
    ensures
        arrived(records, order1).to_multiset() == arrived(records, order2).to_multiset(),
{
    lemma_arrival_preserves_records(records, order1);
    lemma_arrival_preserves_records(records, order2);
}

} // verus!
