//! Per-worker and aggregate statistics of a benchmark run.
//!
//! A worker folds the outcomes of its own exchanges into one `Statistics`
//! record; the dispatcher then reduces the per-worker records element-wise
//! into one combined record. Durations are wall-clock nanoseconds.
use vstd::prelude::*;

use crate::ExchangeOutcome;
use crate::sums::lemma_sum_of_nonneg;
use crate::sums::lemma_sum_of_permutation;
use crate::sums::lemma_sum_of_push;
use crate::sums::sum_of;

verus! {

/// Counts of completed exchanges and the summed duration of the successful
/// ones, for one worker or for the whole run.
#[derive(Clone, Copy, PartialEq, Eq, Structural, Debug)]
pub struct Statistics {
    /// Exchanges that completed without a transport error.
    pub succeeded: u64,
    /// Exchanges whose transport call failed.
    pub errored: u64,
    /// Sum of elapsed wall-clock time, in nanoseconds, over the succeeded
    /// exchanges only.
    pub total_duration_nanos: u64,
}

/// 1 for a successful exchange, 0 for a failed one.
pub open spec fn success_one(o: ExchangeOutcome) -> int {
    match o {
        ExchangeOutcome::Success { .. } => 1,
        ExchangeOutcome::Failure => 0,
    }
}

/// 1 for a failed exchange, 0 for a successful one.
pub open spec fn failure_one(o: ExchangeOutcome) -> int {
    match o {
        ExchangeOutcome::Success { .. } => 0,
        ExchangeOutcome::Failure => 1,
    }
}

/// Elapsed nanoseconds of a successful exchange; 0 for a failed one.
pub open spec fn success_nanos(o: ExchangeOutcome) -> int {
    match o {
        ExchangeOutcome::Success { elapsed_nanos } => elapsed_nanos as int,
        ExchangeOutcome::Failure => 0,
    }
}

/// How many of the outcomes succeeded.
pub open spec fn spec_succeeded(s: Seq<ExchangeOutcome>) -> int {
    sum_of(s, |o: ExchangeOutcome| success_one(o))
}

/// How many of the outcomes failed.
pub open spec fn spec_errored(s: Seq<ExchangeOutcome>) -> int {
    sum_of(s, |o: ExchangeOutcome| failure_one(o))
}

/// Summed duration, in nanoseconds, of the successful outcomes.
pub open spec fn spec_total_nanos(s: Seq<ExchangeOutcome>) -> int {
    sum_of(s, |o: ExchangeOutcome| success_nanos(o))
}

/// Every exchange either succeeds or fails: the two counts partition the
/// outcome list.
pub proof fn lemma_outcome_partition(s: Seq<ExchangeOutcome>)
    ensures
        spec_succeeded(s) + spec_errored(s) == s.len(),
        0 <= spec_succeeded(s) <= s.len(),
        0 <= spec_errored(s) <= s.len(),
        spec_total_nanos(s) >= 0,
    decreases s.len(),
{
    lemma_sum_of_nonneg(s, |o: ExchangeOutcome| success_nanos(o));
    if s.len() > 0 {
        lemma_outcome_partition(s.drop_last());
    }
}

impl Statistics {
    /// The empty record a worker starts from.
    pub fn new() -> (r: Statistics)
        ensures
            r.succeeded == 0,
            r.errored == 0,
            r.total_duration_nanos == 0,
    {
        Statistics { succeeded: 0, errored: 0, total_duration_nanos: 0 }
    }

    /// Fold one exchange outcome into the record: a success bumps
    /// `succeeded` and adds its elapsed time, a failure bumps `errored` and
    /// leaves the duration alone.
    pub fn record(&mut self, outcome: ExchangeOutcome)
        requires
            old(self).succeeded + success_one(outcome) <= u64::MAX,
            old(self).errored + failure_one(outcome) <= u64::MAX,
            old(self).total_duration_nanos + success_nanos(outcome) <= u64::MAX,
        ensures
            final(self).succeeded == old(self).succeeded + success_one(outcome),
            final(self).errored == old(self).errored + failure_one(outcome),
            final(self).total_duration_nanos == old(self).total_duration_nanos + success_nanos(
                outcome,
            ),
    {
        match outcome {
            ExchangeOutcome::Success { elapsed_nanos } => {
                self.succeeded = self.succeeded + 1;
                self.total_duration_nanos = self.total_duration_nanos + elapsed_nanos;
            },
            ExchangeOutcome::Failure => {
                self.errored = self.errored + 1;
            },
        }
    }
}

/// Fold a whole worker's outcome list into its `Statistics` record: the
/// result counts exactly the successes and the failures and sums the elapsed
/// time of the successes only.
pub fn accumulate(outcomes: &Vec<ExchangeOutcome>) -> (r: Statistics)
    requires
        spec_total_nanos(outcomes@) <= u64::MAX,
    ensures
        r.succeeded == spec_succeeded(outcomes@),
        r.errored == spec_errored(outcomes@),
        r.total_duration_nanos == spec_total_nanos(outcomes@),
{
    let mut stats = Statistics::new();
    let mut i: usize = 0;
    while i < outcomes.len()
        invariant
            0 <= i <= outcomes@.len(),
            spec_total_nanos(outcomes@) <= u64::MAX,
            stats.succeeded == spec_succeeded(outcomes@.take(i as int)),
            stats.errored == spec_errored(outcomes@.take(i as int)),
            stats.total_duration_nanos == spec_total_nanos(outcomes@.take(i as int)),
        decreases outcomes@.len() - i,
    {
        proof {
            lemma_outcome_partition(outcomes@.take(i as int));
            lemma_outcome_partition(outcomes@);
            assert(outcomes@.take(i as int).push(outcomes@[i as int]) =~= outcomes@.take(
                i as int + 1,
            ));
            lemma_sum_of_push(
                outcomes@.take(i as int),
                |o: ExchangeOutcome| success_one(o),
                outcomes@[i as int],
            );
            lemma_sum_of_push(
                outcomes@.take(i as int),
                |o: ExchangeOutcome| failure_one(o),
                outcomes@[i as int],
            );
            lemma_sum_of_push(
                outcomes@.take(i as int),
                |o: ExchangeOutcome| success_nanos(o),
                outcomes@[i as int],
            );
            lemma_prefix_total_bound(outcomes@, i as int);
        }
        stats.record(outcomes[i]);
        i = i + 1;
    }
    proof {
        assert(outcomes@.take(outcomes@.len() as int) =~= outcomes@);
    }
    stats
}

/// The successful durations of a prefix never exceed those of the whole
/// list, so the running total in `accumulate` stays within bounds.
proof fn lemma_prefix_total_bound(s: Seq<ExchangeOutcome>, i: int)
    requires
        0 <= i < s.len(),
    ensures
        spec_total_nanos(s.take(i)) + success_nanos(s[i]) <= spec_total_nanos(s),
    decreases s.len() - i,
{
    assert(s.take(i).push(s[i]) =~= s.take(i + 1));
    lemma_sum_of_push(s.take(i), |o: ExchangeOutcome| success_nanos(o), s[i]);
    if i + 1 == s.len() {
        assert(s.take(i + 1) =~= s);
    } else {
        lemma_prefix_total_bound(s, i + 1);
        assert(success_nanos(s[i + 1]) >= 0);
    }
}

/// Element-wise sum of `succeeded` over a list of per-worker records.
pub open spec fn spec_sum_succeeded(s: Seq<Statistics>) -> int {
    sum_of(s, |st: Statistics| st.succeeded as int)
}

/// Element-wise sum of `errored` over a list of per-worker records.
pub open spec fn spec_sum_errored(s: Seq<Statistics>) -> int {
    sum_of(s, |st: Statistics| st.errored as int)
}

/// Element-wise sum of `total_duration_nanos` over a list of per-worker
/// records.
pub open spec fn spec_sum_nanos(s: Seq<Statistics>) -> int {
    sum_of(s, |st: Statistics| st.total_duration_nanos as int)
}

/// Reduce the per-worker records into one combined record by summing each
/// field.
pub fn aggregate(parts: &Vec<Statistics>) -> (r: Statistics)
    requires
        spec_sum_succeeded(parts@) <= u64::MAX,
        spec_sum_errored(parts@) <= u64::MAX,
        spec_sum_nanos(parts@) <= u64::MAX,
    ensures
        r.succeeded == spec_sum_succeeded(parts@),
        r.errored == spec_sum_errored(parts@),
        r.total_duration_nanos == spec_sum_nanos(parts@),
{
    let mut combined = Statistics::new();
    let mut i: usize = 0;
    while i < parts.len()
        invariant
            0 <= i <= parts@.len(),
            spec_sum_succeeded(parts@) <= u64::MAX,
            spec_sum_errored(parts@) <= u64::MAX,
            spec_sum_nanos(parts@) <= u64::MAX,
            combined.succeeded == spec_sum_succeeded(parts@.take(i as int)),
            combined.errored == spec_sum_errored(parts@.take(i as int)),
            combined.total_duration_nanos == spec_sum_nanos(parts@.take(i as int)),
        decreases parts@.len() - i,
    {
        proof {
            assert(parts@.take(i as int).push(parts@[i as int]) =~= parts@.take(i as int + 1));
            lemma_sum_of_push(
                parts@.take(i as int),
                |st: Statistics| st.succeeded as int,
                parts@[i as int],
            );
            lemma_sum_of_push(
                parts@.take(i as int),
                |st: Statistics| st.errored as int,
                parts@[i as int],
            );
            lemma_sum_of_push(
                parts@.take(i as int),
                |st: Statistics| st.total_duration_nanos as int,
                parts@[i as int],
            );
            lemma_stat_prefix_bounds(parts@, i as int);
        }
        let p = parts[i];
        combined.succeeded = combined.succeeded + p.succeeded;
        combined.errored = combined.errored + p.errored;
        combined.total_duration_nanos = combined.total_duration_nanos + p.total_duration_nanos;
        i = i + 1;
    }
    proof {
        assert(parts@.take(parts@.len() as int) =~= parts@);
    }
    combined
}

/// Field sums over a prefix plus the next record stay within the sums over
/// the whole list.
proof fn lemma_stat_prefix_bounds(s: Seq<Statistics>, i: int)
    requires
        0 <= i < s.len(),
    ensures
        spec_sum_succeeded(s.take(i)) + s[i].succeeded <= spec_sum_succeeded(s),
        spec_sum_errored(s.take(i)) + s[i].errored <= spec_sum_errored(s),
        spec_sum_nanos(s.take(i)) + s[i].total_duration_nanos <= spec_sum_nanos(s),
        spec_sum_succeeded(s.take(i)) >= 0,
        spec_sum_errored(s.take(i)) >= 0,
        spec_sum_nanos(s.take(i)) >= 0,
    decreases s.len() - i,
{
    lemma_sum_of_nonneg(s.take(i), |st: Statistics| st.succeeded as int);
    lemma_sum_of_nonneg(s.take(i), |st: Statistics| st.errored as int);
    lemma_sum_of_nonneg(s.take(i), |st: Statistics| st.total_duration_nanos as int);
    assert(s.take(i).push(s[i]) =~= s.take(i + 1));
    lemma_sum_of_push(s.take(i), |st: Statistics| st.succeeded as int, s[i]);
    lemma_sum_of_push(s.take(i), |st: Statistics| st.errored as int, s[i]);
    lemma_sum_of_push(s.take(i), |st: Statistics| st.total_duration_nanos as int, s[i]);
    if i + 1 == s.len() {
        assert(s.take(i + 1) =~= s);
    } else {
        lemma_stat_prefix_bounds(s, i + 1);
    }
}

/// Aggregation is order-independent: reducing the per-worker records in any
/// order — any two lists that hold the same records with the same
/// multiplicities — yields the same combined counts and the same combined
/// duration.
pub proof fn lemma_aggregate_permutation(s1: Seq<Statistics>, s2: Seq<Statistics>)
    requires
        s1.to_multiset() == s2.to_multiset(),
    ensures
        spec_sum_succeeded(s1) == spec_sum_succeeded(s2),
        spec_sum_errored(s1) == spec_sum_errored(s2),
        spec_sum_nanos(s1) == spec_sum_nanos(s2),
{
    lemma_sum_of_permutation(s1, s2, |st: Statistics| st.succeeded as int);
    lemma_sum_of_permutation(s1, s2, |st: Statistics| st.errored as int);
    lemma_sum_of_permutation(s1, s2, |st: Statistics| st.total_duration_nanos as int);
}

} // verus!
