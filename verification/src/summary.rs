//! Counters over one batch, for the aggregate log line.

use vstd::prelude::*;
use crate::error::PredictError;

verus! {

/// How many results of a batch are failures.
pub open spec fn failure_count<T, E>(outcomes: Seq<Result<T, E>>) -> nat
    decreases outcomes.len(),
{
    if outcomes.len() == 0 {
        0
    } else {
        failure_count(outcomes.drop_last()) + if outcomes.last() is Err {
            1nat
        } else {
            0nat
        }
    }
}

/// The counters of a batch as plain values.
pub struct BatchSummaryView {
    /// How many items have a real result.
    pub processed: nat,
    /// How many items failed.
    pub errors: nat,
}

/// The counters that a batch of results gives.
pub open spec fn summary_of<T, E>(outcomes: Seq<Result<T, E>>) -> BatchSummaryView {
    BatchSummaryView {
        processed: (outcomes.len() - failure_count(outcomes)) as nat,
        errors: failure_count(outcomes),
    }
}

/// What the one log line of a finished batch says.
#[derive(Debug, Clone, Copy, PartialEq, Eq)]
pub enum BatchReport {
    /// Every item has a real result; the number of items.
    AllSucceeded { texts: usize },
    /// Some items failed: how many, out of how many items.
    SomeFailed { errors: usize, total: usize },
}

/// The counters of one batch: how many items have a real result and how
/// many failed.  They are made when the batch is done and not kept.
#[derive(Debug, Clone, Copy, PartialEq, Eq)]
pub struct BatchSummary {
    total: usize,
    errors: usize,
}

impl View for BatchSummary {
    type V = BatchSummaryView;

    closed spec fn view(&self) -> BatchSummaryView {
        BatchSummaryView {
            processed: (self.total - self.errors) as nat,
            errors: self.errors as nat,
        }
    }
}

impl BatchSummary {
    #[verifier::type_invariant]
    spec fn well_formed(self) -> bool {
        self.errors <= self.total
    }

    /// How many items have a real result.
    pub fn processed(&self) -> (n: usize)
        ensures
            n == self@.processed,
    {
        proof {
            use_type_invariant(self);
        }
        self.total - self.errors
    }

    /// How many items failed.
    pub fn errors(&self) -> (n: usize)
        ensures
            n == self@.errors,
    {
        self.errors
    }

    /// How many items the batch had.
    pub fn total(&self) -> (n: usize)
        ensures
            n == self@.processed + self@.errors,
    {
        proof {
            use_type_invariant(self);
        }
        self.total
    }

    /// True when no item failed.
    pub fn all_succeeded(&self) -> (b: bool)
        ensures
            b == (self@.errors == 0),
    {
        self.errors == 0
    }

    /// Decides what the log line of the batch says: that all went well, or
    /// how many items failed out of how many.
    pub fn report(&self) -> (report: BatchReport)
        ensures
            match report {
                BatchReport::AllSucceeded { texts } => self@.errors == 0 && texts
                    == self@.processed,
                BatchReport::SomeFailed { errors, total } => errors > 0 && errors == self@.errors
                    && total == self@.processed + self@.errors,
            },
    {
        proof {
            use_type_invariant(self);
        }
        if self.errors == 0 {
            BatchReport::AllSucceeded { texts: self.total }
        } else {
            BatchReport::SomeFailed { errors: self.errors, total: self.total }
        }
    }
}

/// A batch has no more failures than results.
pub proof fn lemma_failure_count_bounded<T, E>(outcomes: Seq<Result<T, E>>)
    ensures
        failure_count(outcomes) <= outcomes.len(),
    decreases outcomes.len(),
{
    if outcomes.len() > 0 {
        lemma_failure_count_bounded(outcomes.drop_last());
    }
}

/// Two batches that fail at the same places have the same number of
/// failures.
pub proof fn lemma_failure_count_by_place<T, E, U, F>(
    a: Seq<Result<T, E>>,
    b: Seq<Result<U, F>>,
)
    requires
        a.len() == b.len(),
        forall|i: int| 0 <= i < a.len() ==> (a[i] is Err <==> b[i] is Err),
    ensures
        failure_count(a) == failure_count(b),
    decreases a.len(),
{
    if a.len() > 0 {
        lemma_failure_count_by_place(a.drop_last(), b.drop_last());
    }
}

/// Counts the real results and the failures of a batch.
pub fn summarize<T>(outcomes: &Vec<Result<T, PredictError>>) -> (summary: BatchSummary)
    ensures
        summary@ == summary_of(outcomes@),
{
    let mut errors: usize = 0;
    let mut i: usize = 0;
    while i < outcomes.len()
        invariant
            i <= outcomes.len(),
            errors == failure_count(outcomes@.take(i as int)),
            errors <= i,
        decreases outcomes.len() - i,
    {
        assert(outcomes@.take(i + 1).drop_last() =~= outcomes@.take(i as int));
        if outcomes[i].is_err() {
            errors += 1;
        }
        i += 1;
    }
    assert(outcomes@.take(i as int) =~= outcomes@);
    BatchSummary { total: outcomes.len(), errors }
}

} // verus!
