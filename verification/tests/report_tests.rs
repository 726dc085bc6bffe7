use loadbench::report::Report;
use loadbench::report::build_report;
use loadbench::report::dec_string;
use loadbench::report::format_thousandths;
use loadbench::report::mean_latency_nanos;
use loadbench::report::render_report;
use loadbench::report::requests_per_second_milli;
use loadbench::stats::Statistics;

#[test]
fn mean_is_not_computable_without_successes() {
    let s = Statistics { succeeded: 0, errored: 9, total_duration_nanos: 0 };
    assert_eq!(mean_latency_nanos(&s), None);
}

#[test]
fn mean_is_the_duration_over_the_success_count() {
    let s = Statistics { succeeded: 8, errored: 0, total_duration_nanos: 100 };
    assert_eq!(mean_latency_nanos(&s), Some(12));
    let t = Statistics { succeeded: 2, errored: 3, total_duration_nanos: 100_000_000 };
    assert_eq!(mean_latency_nanos(&t), Some(50_000_000));
}

#[test]
fn throughput_is_not_computable_at_zero_mean() {
    assert_eq!(requests_per_second_milli(4, 0), None);
}

#[test]
fn throughput_paces_concurrency_by_the_mean() {
    // One worker at 50 ms per request sustains 20 requests per second.
    assert_eq!(requests_per_second_milli(1, 50_000_000), Some(20_000));
    // Four workers at 2 ms per request sustain 2000 requests per second.
    assert_eq!(requests_per_second_milli(4, 2_000_000), Some(2_000_000));
}

#[test]
fn decimal_rendering() {
    assert_eq!(dec_string(0), "0");
    assert_eq!(dec_string(7), "7");
    assert_eq!(dec_string(10), "10");
    assert_eq!(dec_string(909), "909");
    assert_eq!(dec_string(1_000_000), "1000000");
}

#[test]
fn three_decimal_places_exactly() {
    assert_eq!(format_thousandths(50_000), "50.000");
    assert_eq!(format_thousandths(0), "0.000");
    assert_eq!(format_thousandths(7), "0.007");
    assert_eq!(format_thousandths(70), "0.070");
    assert_eq!(format_thousandths(1_234_567), "1234.567");
}

#[test]
fn report_lines_for_a_single_fifty_millisecond_success() {
    let s = Statistics { succeeded: 1, errored: 0, total_duration_nanos: 50_000_000 };
    let report = build_report(&s, 1);
    assert_eq!(report.succeeded, 1);
    assert_eq!(report.errored, 0);
    assert_eq!(report.mean_latency_nanos, Some(50_000_000));
    let lines = render_report(&report);
    assert_eq!(lines.len(), 5);
    assert_eq!(lines[0], "Successful requests: 1");
    assert_eq!(lines[1], "Errored requests: 0");
    assert_eq!(lines[2], "Concurrency: 1");
    assert_eq!(lines[3], "Mean response time: 50.000 milliseconds");
    assert_eq!(lines[4], "Requests per second: 20.000");
}

#[test]
fn report_lines_without_any_success() {
    let report = Report { succeeded: 0, errored: 3, concurrency: 3, mean_latency_nanos: None };
    let lines = render_report(&report);
    assert_eq!(lines[0], "Successful requests: 0");
    assert_eq!(lines[1], "Errored requests: 3");
    assert_eq!(lines[2], "Concurrency: 3");
    assert_eq!(lines[3], "Mean response time: not computable");
    assert_eq!(lines[4], "Requests per second: not computable");
}

#[test]
fn report_lines_at_zero_mean() {
    let report = Report { succeeded: 2, errored: 0, concurrency: 1, mean_latency_nanos: Some(0) };
    let lines = render_report(&report);
    assert_eq!(lines[3], "Mean response time: 0.000 milliseconds");
    assert_eq!(lines[4], "Requests per second: not computable");
}
