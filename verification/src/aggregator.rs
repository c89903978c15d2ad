//! The change aggregator: a deduplicated batch of logical changes plus an
//! independent error slot. The event-source side records changes and failures;
//! the polling side reads sizes, takes the error, and snapshots the batch.
//! Callers that share one aggregator between threads serialize every call
//! through a single mutual-exclusion domain; each operation here is a single
//! atomic step of that domain.

use vstd::prelude::*;

use crate::changes::batch_of;
use crate::changes::rec_view;
use crate::changes::ChangeKind;
use crate::changes::ChangeRecord;

verus! {

/// Accumulates the deduplicated set of logical changes seen since the last
/// snapshot, together with at most one outstanding error message.
pub struct ChangeAggregator {
    records: Vec<ChangeRecord>,
    error: Option<String>,
}

impl ChangeAggregator {
    /// The records currently held, in arrival order.
    pub closed spec fn records_seq(self) -> Seq<ChangeRecord> {
        self.records@
    }

    /// The batch as a set of changes: what the records denote, order and
    /// duplicates forgotten.
    pub open spec fn batch(self) -> Set<(ChangeKind, Seq<char>)> {
        batch_of(self.records_seq())
    }

    /// The count of held records; because records are deduplicated this is
    /// also the number of distinct changes in the batch.
    pub open spec fn batch_size(self) -> nat {
        self.records_seq().len()
    }

    /// The outstanding error message, if any.
    pub closed spec fn error_view(self) -> Option<Seq<char>> {
        match self.error {
            Some(s) => Some(s@),
            None => None,
        }
    }

    /// Well-formedness: no two held records denote the same change.
    pub closed spec fn wf(self) -> bool {
        forall|i: int, j: int|
            0 <= i < j < self.records@.len() ==> rec_view(self.records@[i]) != rec_view(
                self.records@[j],
            )
    }

    /// A fresh aggregator: empty batch, empty error slot.
    pub fn new() -> (agg: ChangeAggregator)
        ensures
            agg.wf(),
            agg.batch() == Set::<(ChangeKind, Seq<char>)>::empty(),
            agg.batch_size() == 0,
            agg.error_view() is None,
    {
        let agg = ChangeAggregator { records: Vec::new(), error: None };
        proof {
            assert(agg.batch() =~= Set::<(ChangeKind, Seq<char>)>::empty());
        }
        agg
    }

    /// Whether the batch already holds this change.
    pub fn contains(&self, rec: &ChangeRecord) -> (r: bool)
        ensures
            r == self.batch().contains(rec_view(*rec)),
    {
        let mut i: usize = 0;
        while i < self.records.len()
            invariant
                i <= self.records@.len(),
                forall|j: int| 0 <= j < i ==> rec_view(self.records@[j]) != rec_view(*rec),
            decreases self.records@.len() - i,
        {
            if self.records[i].same_as(rec) {
                return true;
            }
            i = i + 1;
        }
        false
    }

    /// Insert a change into the batch; inserting a change already present is
    /// a no-op (set semantics). The error slot is untouched.
    pub fn record(&mut self, rec: ChangeRecord)
        requires
            old(self).wf(),
        ensures
            final(self).wf(),
            final(self).error_view() == old(self).error_view(),
            final(self).batch() == old(self).batch().insert(rec_view(rec)),
            old(self).batch().contains(rec_view(rec)) ==> *final(self) == *old(self),
            !old(self).batch().contains(rec_view(rec)) ==> final(self).batch_size() == old(
                self,
            ).batch_size() + 1,
    {
        if self.contains(&rec) {
            proof {
                assert(old(self).batch().insert(rec_view(rec)) =~= old(self).batch());
            }
        } else {
            self.records.push(rec);
            proof {
                let s_old = old(self).records_seq();
                let s_new = self.records_seq();
                assert forall|p: (ChangeKind, Seq<char>)| #[trigger] batch_of(s_new).contains(p)
                    implies old(self).batch().insert(rec_view(rec)).contains(p) by {
                    let i = choose|i: int| 0 <= i < s_new.len() && rec_view(s_new[i]) == p;
                    if i < s_old.len() {
                        assert(rec_view(s_old[i]) == p);
                    }
                }
                assert forall|p: (ChangeKind, Seq<char>)| old(self).batch().insert(
                    rec_view(rec),
                ).contains(p) implies #[trigger] batch_of(s_new).contains(p) by {
                    if p == rec_view(rec) {
                        assert(rec_view(s_new[s_old.len() as int]) == p);
                    } else {
                        let i = choose|i: int| 0 <= i < s_old.len() && rec_view(s_old[i]) == p;
                        assert(rec_view(s_new[i]) == p);
                    }
                }
                assert(self.batch() =~= old(self).batch().insert(rec_view(rec)));
                assert forall|i: int, j: int| 0 <= i < j < s_new.len() implies rec_view(
                    s_new[i],
                ) != rec_view(s_new[j]) by {
                    if j == s_old.len() {
                        if rec_view(s_old[i]) == rec_view(rec) {
                            assert(old(self).batch().contains(rec_view(rec)));
                        }
                    }
                }
            }
        }
    }

    /// Set the error slot if and only if it is empty: the first failure wins,
    /// later ones in the same cycle are discarded. The batch is untouched.
    pub fn fail(&mut self, message: String)
        ensures
            final(self).records_seq() == old(self).records_seq(),
            final(self).wf() == old(self).wf(),
            old(self).error_view() is None ==> final(self).error_view() == Some(message@),
            old(self).error_view() is Some ==> final(self).error_view() == old(self).error_view(),
    {
        if self.error.is_none() {
            self.error = Some(message);
        }
    }

    /// Atomically hand out the accumulated batch and reset it to empty; the
    /// error slot is unaffected.
    pub fn snapshot_and_clear(&mut self) -> (out: Vec<ChangeRecord>)
        requires
            old(self).wf(),
        ensures
            final(self).wf(),
            out@ == old(self).records_seq(),
            batch_of(out@) == old(self).batch(),
            out@.len() == old(self).batch_size(),
            final(self).batch() == Set::<(ChangeKind, Seq<char>)>::empty(),
            final(self).batch_size() == 0,
            final(self).error_view() == old(self).error_view(),
    {
        let mut out: Vec<ChangeRecord> = Vec::new();
        core::mem::swap(&mut out, &mut self.records);
        proof {
            assert(self.batch() =~= Set::<(ChangeKind, Seq<char>)>::empty());
        }
        out
    }

    /// Atomically read and clear the error slot.
    pub fn take_error(&mut self) -> (err: Option<String>)
        ensures
            final(self).records_seq() == old(self).records_seq(),
            final(self).wf() == old(self).wf(),
            final(self).error_view() is None,
            match err {
                Some(m) => old(self).error_view() == Some(m@),
                None => old(self).error_view() is None,
            },
    {
        self.error.take()
    }

    /// Discard the accumulated batch, leaving the error slot as it is.
    pub fn clear(&mut self)
        ensures
            final(self).wf(),
            final(self).batch() == Set::<(ChangeKind, Seq<char>)>::empty(),
            final(self).batch_size() == 0,
            final(self).error_view() == old(self).error_view(),
    {
        self.records.clear();
        proof {
            assert(self.batch() =~= Set::<(ChangeKind, Seq<char>)>::empty());
        }
    }

    /// The number of distinct changes currently accumulated.
    pub fn len(&self) -> (n: usize)
        ensures
            n == self.batch_size(),
    {
        self.records.len()
    }

    /// Law: the batch is a set — a well-formed aggregator holds exactly as
    /// many records as the batch has distinct changes.
    pub proof fn lemma_len_counts_distinct_changes(self)
        requires
            self.wf(),
        ensures
            self.batch().finite(),
            self.batch().len() == self.batch_size(),
    {
        crate::changes::lemma_distinct_records_count(self.records_seq());
    }
}

} // verus!
