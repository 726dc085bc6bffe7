//! The benchmark runner: fold each worker's outcomes, reduce the per-worker
//! records, and build the report.
//!
//! The dispatcher partitions `total_requests` evenly over `concurrency`
//! workers; each worker runs its share of exchanges strictly sequentially
//! and owns its own accumulator, so the reduction here needs no shared
//! state. The exchanges themselves — the HTTP calls and the clock reads —
//! happen outside the library; `benchmark` takes each worker's outcome list
//! and is proved to report exactly the counts and durations those outcomes
//! carry.
use vstd::prelude::*;

use vstd::arithmetic::div_mod::lemma_div_multiples_vanish;

use crate::ExchangeOutcome;
use crate::config::Config;
use crate::config::requests_per_worker;
use crate::config::spec_divisible;
use crate::report::Report;
use crate::report::build_report;
use crate::stats::Statistics;
use crate::stats::accumulate;
use crate::stats::aggregate;
use crate::stats::lemma_outcome_partition;
use crate::stats::spec_errored;
use crate::stats::spec_succeeded;
use crate::stats::spec_total_nanos;
use crate::sums::lemma_sum_of_add;
use crate::sums::lemma_sum_of_constant;
use crate::sums::lemma_sum_of_element_bound;
use crate::sums::lemma_sum_of_nonneg;
use crate::sums::lemma_sum_of_pointwise;
use crate::sums::lemma_sum_of_scale;
use crate::sums::sum_of;

verus! {

/// Successful exchanges over all workers' outcome lists.
pub open spec fn grand_succeeded(w: Seq<Vec<ExchangeOutcome>>) -> int {
    sum_of(w, |v: Vec<ExchangeOutcome>| spec_succeeded(v@))
}

/// Failed exchanges over all workers' outcome lists.
pub open spec fn grand_errored(w: Seq<Vec<ExchangeOutcome>>) -> int {
    sum_of(w, |v: Vec<ExchangeOutcome>| spec_errored(v@))
}

/// Summed duration of the successful exchanges over all workers' outcome
/// lists, in nanoseconds.
pub open spec fn grand_nanos(w: Seq<Vec<ExchangeOutcome>>) -> int {
    sum_of(w, |v: Vec<ExchangeOutcome>| spec_total_nanos(v@))
}

/// Exchanges of any outcome over all workers' outcome lists.
pub open spec fn grand_len(w: Seq<Vec<ExchangeOutcome>>) -> int {
    sum_of(w, |v: Vec<ExchangeOutcome>| v@.len() as int)
}

/// The two grand counts partition the exchanges, and every grand sum is
/// non-negative.
pub proof fn lemma_grand_partition(w: Seq<Vec<ExchangeOutcome>>)
    ensures
        grand_succeeded(w) + grand_errored(w) == grand_len(w),
        0 <= grand_succeeded(w) <= grand_len(w),
        0 <= grand_errored(w) <= grand_len(w),
        grand_nanos(w) >= 0,
{
    assert forall|v: Vec<ExchangeOutcome>| #[trigger] (spec_succeeded(v@) + spec_errored(v@))
        == v@.len() as int by {
        lemma_outcome_partition(v@);
    }
    lemma_sum_of_add(
        w,
        |v: Vec<ExchangeOutcome>| spec_succeeded(v@),
        |v: Vec<ExchangeOutcome>| spec_errored(v@),
        |v: Vec<ExchangeOutcome>| spec_succeeded(v@) + spec_errored(v@),
    );
    lemma_sum_of_pointwise(
        w,
        w,
        |v: Vec<ExchangeOutcome>| spec_succeeded(v@) + spec_errored(v@),
        |v: Vec<ExchangeOutcome>| v@.len() as int,
    );
    assert forall|v: Vec<ExchangeOutcome>| #[trigger] spec_succeeded(v@) >= 0 by {
        lemma_outcome_partition(v@);
    }
    assert forall|v: Vec<ExchangeOutcome>| #[trigger] spec_errored(v@) >= 0 by {
        lemma_outcome_partition(v@);
    }
    assert forall|v: Vec<ExchangeOutcome>| #[trigger] spec_total_nanos(v@) >= 0 by {
        lemma_outcome_partition(v@);
    }
    lemma_sum_of_nonneg(w, |v: Vec<ExchangeOutcome>| spec_succeeded(v@));
    lemma_sum_of_nonneg(w, |v: Vec<ExchangeOutcome>| spec_errored(v@));
    lemma_sum_of_nonneg(w, |v: Vec<ExchangeOutcome>| spec_total_nanos(v@));
}

/// Run the whole reduction of a benchmark: fold each of the `concurrency`
/// workers' outcome lists — each of the even per-worker share's length —
/// into its own record, reduce those into one combined record, and build
/// the report. The reported counts are exactly the grand counts, they add
/// up to `total_requests`, and the mean is the grand duration over the
/// grand success count, absent only when nothing succeeded.
pub fn benchmark(config: &Config, worker_outcomes: &Vec<Vec<ExchangeOutcome>>) -> (r: Report)
    requires
        spec_divisible(config.total_requests, config.concurrency),
        worker_outcomes@.len() == config.concurrency,
        forall|j: int|
            0 <= j < worker_outcomes@.len() ==> (#[trigger] worker_outcomes@[j]@.len())
                == config.total_requests as int / config.concurrency as int,
        grand_nanos(worker_outcomes@) <= u64::MAX,
    ensures
        r.succeeded == grand_succeeded(worker_outcomes@),
        r.errored == grand_errored(worker_outcomes@),
        r.succeeded + r.errored == config.total_requests,
        r.concurrency == config.concurrency,
        match r.mean_latency_nanos {
            Option::Some(m) => grand_succeeded(worker_outcomes@) > 0 && m == grand_nanos(
                worker_outcomes@,
            ) / grand_succeeded(worker_outcomes@),
            Option::None => grand_succeeded(worker_outcomes@) == 0,
        },
{
    let per_worker: u64 = requests_per_worker(config.total_requests, config.concurrency);
    proof {
        lemma_grand_partition(worker_outcomes@);
        lemma_sum_of_constant(
            worker_outcomes@,
            |v: Vec<ExchangeOutcome>| v@.len() as int,
            per_worker as int,
        );
        assert(worker_outcomes@.len() * per_worker as int == per_worker as int
            * worker_outcomes@.len()) by (nonlinear_arith);
        assert(grand_len(worker_outcomes@) == config.total_requests);
    }

    let mut parts: Vec<Statistics> = Vec::new();
    let mut i: usize = 0;
    while i < worker_outcomes.len()
        invariant
            0 <= i <= worker_outcomes@.len(),
            grand_nanos(worker_outcomes@) <= u64::MAX,
            parts@.len() == i,
            forall|j: int|
                0 <= j < i ==> (#[trigger] parts@[j]).succeeded == spec_succeeded(
                    worker_outcomes@[j]@,
                ) && parts@[j].errored == spec_errored(worker_outcomes@[j]@)
                    && parts@[j].total_duration_nanos == spec_total_nanos(worker_outcomes@[j]@),
        decreases worker_outcomes@.len() - i,
    {
        proof {
            assert forall|v: Vec<ExchangeOutcome>| #[trigger] spec_total_nanos(v@) >= 0 by {
                lemma_outcome_partition(v@);
            }
            lemma_sum_of_element_bound(
                worker_outcomes@,
                |v: Vec<ExchangeOutcome>| spec_total_nanos(v@),
                i as int,
            );
        }
        let st = accumulate(&worker_outcomes[i]);
        parts.push(st);
        i = i + 1;
    }

    proof {
        lemma_grand_partition(worker_outcomes@);
        lemma_sum_of_pointwise(
            parts@,
            worker_outcomes@,
            |st: Statistics| st.succeeded as int,
            |v: Vec<ExchangeOutcome>| spec_succeeded(v@),
        );
        lemma_sum_of_pointwise(
            parts@,
            worker_outcomes@,
            |st: Statistics| st.errored as int,
            |v: Vec<ExchangeOutcome>| spec_errored(v@),
        );
        lemma_sum_of_pointwise(
            parts@,
            worker_outcomes@,
            |st: Statistics| st.total_duration_nanos as int,
            |v: Vec<ExchangeOutcome>| spec_total_nanos(v@),
        );
    }
    let combined = aggregate(&parts);
    build_report(&combined, config.concurrency)
}

/// When every exchange of a worker succeeds after the same fixed delay,
/// the worker's record holds exactly its exchange count, no errors, and
/// the count times the delay as its duration.
pub proof fn lemma_fixed_delay(s: Seq<ExchangeOutcome>, d: u64)
    requires
        forall|k: int|
            0 <= k < s.len() ==> s[k] == (ExchangeOutcome::Success { elapsed_nanos: d }),
    ensures
        spec_succeeded(s) == s.len(),
        spec_errored(s) == 0,
        spec_total_nanos(s) == s.len() * d,
{
    lemma_sum_of_constant(s, |o: ExchangeOutcome| crate::stats::success_one(o), 1);
    lemma_sum_of_constant(s, |o: ExchangeOutcome| crate::stats::failure_one(o), 0);
    lemma_sum_of_constant(s, |o: ExchangeOutcome| crate::stats::success_nanos(o), d as int);
    assert(s.len() * 1 == s.len()) by (nonlinear_arith);
    assert(s.len() * 0 == 0) by (nonlinear_arith);
}

/// When every exchange of every worker succeeds after the same fixed delay
/// `d`, no errors are counted and the mean latency of the run is exactly
/// `d`: the reported mean converges to the mocked delay, and the reported
/// throughput to `concurrency / d`.
pub proof fn lemma_fixed_delay_run(w: Seq<Vec<ExchangeOutcome>>, d: u64)
    requires
        forall|j: int, k: int|
            0 <= j < w.len() && 0 <= k < w[j]@.len() ==> w[j]@[k] == (ExchangeOutcome::Success {
                elapsed_nanos: d,
            }),
    ensures
        grand_errored(w) == 0,
        grand_succeeded(w) == grand_len(w),
        grand_nanos(w) == grand_len(w) * d,
        grand_len(w) > 0 ==> grand_nanos(w) / grand_succeeded(w) == d,
{
    assert forall|j: int| 0 <= j < w.len() implies #[trigger] spec_succeeded(w[j]@)
        == w[j]@.len() as int by {
        lemma_fixed_delay(w[j]@, d);
    }
    assert forall|j: int| 0 <= j < w.len() implies #[trigger] spec_errored(w[j]@) == 0 by {
        lemma_fixed_delay(w[j]@, d);
    }
    assert forall|j: int| 0 <= j < w.len() implies #[trigger] spec_total_nanos(w[j]@)
        == w[j]@.len() as int * d by {
        lemma_fixed_delay(w[j]@, d);
    }
    lemma_sum_of_pointwise(
        w,
        w,
        |v: Vec<ExchangeOutcome>| spec_succeeded(v@),
        |v: Vec<ExchangeOutcome>| v@.len() as int,
    );
    lemma_sum_of_constant(w, |v: Vec<ExchangeOutcome>| spec_errored(v@), 0);
    assert(w.len() * 0 == 0) by (nonlinear_arith);
    lemma_sum_of_pointwise(
        w,
        w,
        |v: Vec<ExchangeOutcome>| spec_total_nanos(v@),
        |v: Vec<ExchangeOutcome>| v@.len() as int * d,
    );
    lemma_sum_of_scale(
        w,
        |v: Vec<ExchangeOutcome>| v@.len() as int,
        |v: Vec<ExchangeOutcome>| v@.len() as int * d,
        d as int,
    );
    if grand_len(w) > 0 {
        lemma_div_multiples_vanish(d as int, grand_len(w));
    }
}

} // verus!
