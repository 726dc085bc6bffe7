use loadbench::ExchangeOutcome;
use loadbench::stats::Statistics;
use loadbench::stats::accumulate;
use loadbench::stats::aggregate;

#[test]
fn record_folds_successes_and_failures() {
    let mut stats = Statistics::new();
    assert_eq!(stats.succeeded, 0);
    assert_eq!(stats.errored, 0);
    assert_eq!(stats.total_duration_nanos, 0);

    stats.record(ExchangeOutcome::Success { elapsed_nanos: 7 });
    stats.record(ExchangeOutcome::Failure);
    stats.record(ExchangeOutcome::Success { elapsed_nanos: 5 });

    assert_eq!(stats.succeeded, 2);
    assert_eq!(stats.errored, 1);
    assert_eq!(stats.total_duration_nanos, 12);
}

#[test]
fn accumulate_of_nothing_is_empty() {
    let stats = accumulate(&Vec::new());
    assert_eq!(stats.succeeded, 0);
    assert_eq!(stats.errored, 0);
    assert_eq!(stats.total_duration_nanos, 0);
}

#[test]
fn failures_on_k_of_n_exchanges_are_counted_exactly() {
    // 2 of 6 exchanges fail: errored == 2, succeeded == 4, and the
    // duration reflects only the 4 successes.
    let outcomes = vec![
        ExchangeOutcome::Success { elapsed_nanos: 100 },
        ExchangeOutcome::Failure,
        ExchangeOutcome::Success { elapsed_nanos: 200 },
        ExchangeOutcome::Success { elapsed_nanos: 300 },
        ExchangeOutcome::Failure,
        ExchangeOutcome::Success { elapsed_nanos: 400 },
    ];
    let stats = accumulate(&outcomes);
    assert_eq!(stats.errored, 2);
    assert_eq!(stats.succeeded, 4);
    assert_eq!(stats.total_duration_nanos, 1000);
}

#[test]
fn aggregate_sums_each_field() {
    let parts = vec![
        Statistics { succeeded: 3, errored: 1, total_duration_nanos: 30 },
        Statistics { succeeded: 0, errored: 4, total_duration_nanos: 0 },
        Statistics { succeeded: 2, errored: 0, total_duration_nanos: 50 },
    ];
    let combined = aggregate(&parts);
    assert_eq!(combined.succeeded, 5);
    assert_eq!(combined.errored, 5);
    assert_eq!(combined.total_duration_nanos, 80);
}

#[test]
fn aggregate_is_order_independent() {
    let a = Statistics { succeeded: 3, errored: 1, total_duration_nanos: 31 };
    let b = Statistics { succeeded: 7, errored: 0, total_duration_nanos: 170 };
    let c = Statistics { succeeded: 0, errored: 5, total_duration_nanos: 0 };
    let one_order = aggregate(&vec![a, b, c]);
    let another = aggregate(&vec![c, a, b]);
    let third = aggregate(&vec![b, c, a]);
    assert_eq!(one_order, another);
    assert_eq!(one_order, third);
}
