use loadbench::ExchangeOutcome;
use loadbench::config::Config;
use loadbench::report::render_report;
use loadbench::runner::benchmark;

#[test]
fn it_works() {}

fn config(total: u64, concurrency: u64) -> Config {
    Config {
        method: "GET".to_string(),
        url: "http://localhost/".to_string(),
        body: "".to_string(),
        total_requests: total,
        concurrency,
    }
}

#[test]
fn single_worker_single_fifty_millisecond_request() {
    let outcomes = vec![vec![ExchangeOutcome::Success { elapsed_nanos: 50_000_000 }]];
    let report = benchmark(&config(1, 1), &outcomes);
    assert_eq!(report.succeeded, 1);
    assert_eq!(report.errored, 0);
    assert_eq!(report.concurrency, 1);
    assert_eq!(report.mean_latency_nanos, Some(50_000_000));
    let lines = render_report(&report);
    assert_eq!(lines[3], "Mean response time: 50.000 milliseconds");
    assert_eq!(lines[4], "Requests per second: 20.000");
}

#[test]
fn counts_over_all_workers_sum_to_the_total() {
    // 3 workers, 3 exchanges each: the combined counts partition the 9.
    let outcomes = vec![
        vec![
            ExchangeOutcome::Success { elapsed_nanos: 10 },
            ExchangeOutcome::Failure,
            ExchangeOutcome::Success { elapsed_nanos: 20 },
        ],
        vec![
            ExchangeOutcome::Failure,
            ExchangeOutcome::Failure,
            ExchangeOutcome::Success { elapsed_nanos: 30 },
        ],
        vec![
            ExchangeOutcome::Success { elapsed_nanos: 40 },
            ExchangeOutcome::Success { elapsed_nanos: 50 },
            ExchangeOutcome::Success { elapsed_nanos: 60 },
        ],
    ];
    let report = benchmark(&config(9, 3), &outcomes);
    assert_eq!(report.succeeded, 6);
    assert_eq!(report.errored, 3);
    assert_eq!(report.succeeded + report.errored, 9);
    // 210 nanoseconds over 6 successes.
    assert_eq!(report.mean_latency_nanos, Some(35));
}

#[test]
fn fixed_delay_is_reported_as_the_mean() {
    // Every exchange takes exactly 2 ms: the mean is exactly 2 ms and two
    // always-busy workers sustain 1000 requests per second.
    let d = 2_000_000;
    let outcomes = vec![
        vec![
            ExchangeOutcome::Success { elapsed_nanos: d },
            ExchangeOutcome::Success { elapsed_nanos: d },
        ],
        vec![
            ExchangeOutcome::Success { elapsed_nanos: d },
            ExchangeOutcome::Success { elapsed_nanos: d },
        ],
    ];
    let report = benchmark(&config(4, 2), &outcomes);
    assert_eq!(report.succeeded, 4);
    assert_eq!(report.errored, 0);
    assert_eq!(report.mean_latency_nanos, Some(d));
    let lines = render_report(&report);
    assert_eq!(lines[3], "Mean response time: 2.000 milliseconds");
    assert_eq!(lines[4], "Requests per second: 1000.000");
}

#[test]
fn zero_requests_report_nothing_computable() {
    let outcomes: Vec<Vec<ExchangeOutcome>> = vec![vec![]];
    let report = benchmark(&config(0, 1), &outcomes);
    assert_eq!(report.succeeded, 0);
    assert_eq!(report.errored, 0);
    assert_eq!(report.mean_latency_nanos, None);
}

#[test]
fn all_failures_report_no_mean() {
    let outcomes = vec![vec![ExchangeOutcome::Failure, ExchangeOutcome::Failure]];
    let report = benchmark(&config(2, 1), &outcomes);
    assert_eq!(report.succeeded, 0);
    assert_eq!(report.errored, 2);
    assert_eq!(report.mean_latency_nanos, None);
}
