//! The reported figures of a run, and their decimal rendering.
//!
//! All arithmetic is on integers: durations are nanoseconds, and the two
//! fractional figures — mean latency in milliseconds and requests per
//! second — are carried in thousandths of their unit, so "three decimal
//! places" is exact integer division, not rounding of a float. A mean over
//! zero successes is a distinct, explicitly reported state, never a
//! division by zero.
use vstd::prelude::*;

use vstd::string::StringExecFns;

use crate::stats::Statistics;

verus! {

/// The decimal digit character for `d` in `0..10`.
pub open spec fn digit_char(d: int) -> char {
    if d == 0 {
        '0'
    } else if d == 1 {
        '1'
    } else if d == 2 {
        '2'
    } else if d == 3 {
        '3'
    } else if d == 4 {
        '4'
    } else if d == 5 {
        '5'
    } else if d == 6 {
        '6'
    } else if d == 7 {
        '7'
    } else if d == 8 {
        '8'
    } else {
        '9'
    }
}

/// The decimal digits of `n`, most significant first, with no leading
/// zeros (a single `'0'` for zero itself).
pub open spec fn dec_digits(n: int) -> Seq<char>
    decreases n,
{
    if n < 10 {
        seq![digit_char(n)]
    } else {
        dec_digits(n / 10).push(digit_char(n % 10))
    }
}

/// A value held in thousandths of its unit, rendered with exactly three
/// decimal places: the digits of the whole part, a point, and the
/// zero-padded three digits of the fractional part.
pub open spec fn thousandths_chars(v: int) -> Seq<char> {
    dec_digits(v / 1000) + seq![
        '.',
        digit_char(v % 1000 / 100),
        digit_char(v % 1000 / 10 % 10),
        digit_char(v % 1000 % 10),
    ]
}

/// The one-character string of a decimal digit.
fn digit_str(d: u128) -> (r: &'static str)
    requires
        d < 10,
    ensures
        r@.len() == 1,
        r@[0] == digit_char(d as int),
{
    proof {
        reveal_strlit("0");
        reveal_strlit("1");
        reveal_strlit("2");
        reveal_strlit("3");
        reveal_strlit("4");
        reveal_strlit("5");
        reveal_strlit("6");
        reveal_strlit("7");
        reveal_strlit("8");
        reveal_strlit("9");
    }
    if d == 0 {
        "0"
    } else if d == 1 {
        "1"
    } else if d == 2 {
        "2"
    } else if d == 3 {
        "3"
    } else if d == 4 {
        "4"
    } else if d == 5 {
        "5"
    } else if d == 6 {
        "6"
    } else if d == 7 {
        "7"
    } else if d == 8 {
        "8"
    } else {
        "9"
    }
}

/// Render `n` in decimal, most significant digit first.
pub fn dec_string(n: u128) -> (r: String)
    ensures
        r@ == dec_digits(n as int),
    decreases n,
{
    if n < 10 {
        let d = digit_str(n);
        let r = d.to_owned();
        proof {
            assert(r@ =~= dec_digits(n as int));
        }
        r
    } else {
        let mut r = dec_string(n / 10);
        r.append(digit_str(n % 10));
        proof {
            assert(r@ =~= dec_digits(n as int));
        }
        r
    }
}

/// Render a value held in thousandths of its unit with exactly three
/// decimal places.
pub fn format_thousandths(v: u128) -> (r: String)
    ensures
        r@ == thousandths_chars(v as int),
{
    let mut r = dec_string(v / 1000);
    r.append(".");
    let frac: u128 = v % 1000;
    r.append(digit_str(frac / 100));
    r.append(digit_str(frac / 10 % 10));
    r.append(digit_str(frac % 10));
    proof {
        reveal_strlit(".");
        assert(r@ =~= thousandths_chars(v as int));
    }
    r
}

/// Mean latency over the succeeded exchanges, in nanoseconds: the summed
/// duration divided by the success count, or nothing at all when no
/// exchange succeeded — that state is reported, not divided by.
pub fn mean_latency_nanos(s: &Statistics) -> (r: Option<u64>)
    ensures
        match r {
            Option::Some(m) => s.succeeded > 0 && m == s.total_duration_nanos as int
                / s.succeeded as int,
            Option::None => s.succeeded == 0,
        },
{
    if s.succeeded == 0 {
        None
    } else {
        Some(s.total_duration_nanos / s.succeeded)
    }
}

/// Modeled sustained throughput, in thousandths of requests per second:
/// `concurrency` always-busy workers, each paced by the mean latency. A
/// zero mean admits no such figure and yields nothing.
pub fn requests_per_second_milli(concurrency: u64, mean_nanos: u64) -> (r: Option<u128>)
    ensures
        match r {
            Option::Some(x) => mean_nanos > 0 && x == concurrency as int * 1_000_000_000_000
                / mean_nanos as int,
            Option::None => mean_nanos == 0,
        },
{
    if mean_nanos == 0 {
        None
    } else {
        proof {
            assert(concurrency as int * 1_000_000_000_000 <= u64::MAX as int * 1_000_000_000_000)
                by (nonlinear_arith)
                requires
                    concurrency <= u64::MAX,
            ;
        }
        Some((concurrency as u128) * 1_000_000_000_000u128 / (mean_nanos as u128))
    }
}

/// What the run reports: the combined counts, the concurrency they ran
/// under, and the mean latency when it exists.
#[derive(Clone, Copy, PartialEq, Eq, Structural, Debug)]
pub struct Report {
    /// Exchanges that completed without a transport error, over all workers.
    pub succeeded: u64,
    /// Exchanges whose transport call failed, over all workers.
    pub errored: u64,
    /// Number of parallel workers the run used.
    pub concurrency: u64,
    /// Mean latency in nanoseconds over the succeeded exchanges; `None`
    /// when none succeeded.
    pub mean_latency_nanos: Option<u64>,
}

/// Build the report from the combined statistics and the concurrency level.
pub fn build_report(combined: &Statistics, concurrency: u64) -> (r: Report)
    ensures
        r.succeeded == combined.succeeded,
        r.errored == combined.errored,
        r.concurrency == concurrency,
        match r.mean_latency_nanos {
            Option::Some(m) => combined.succeeded > 0 && m == combined.total_duration_nanos as int
                / combined.succeeded as int,
            Option::None => combined.succeeded == 0,
        },
{
    Report {
        succeeded: combined.succeeded,
        errored: combined.errored,
        concurrency,
        mean_latency_nanos: mean_latency_nanos(combined),
    }
}

/// The lines the tool emits for a report, in emission order: the two
/// counts, the concurrency, the mean latency in milliseconds and the
/// requests per second, the last two with exactly three decimal places, or
/// marked not computable when no exchange succeeded (or the mean is too
/// small to pace a worker at all).
pub fn render_report(r: &Report) -> (lines: Vec<String>)
    ensures
        lines@.len() == 5,
        lines@[0]@ == "Successful requests: "@ + dec_digits(r.succeeded as int),
        lines@[1]@ == "Errored requests: "@ + dec_digits(r.errored as int),
        lines@[2]@ == "Concurrency: "@ + dec_digits(r.concurrency as int),
        match r.mean_latency_nanos {
            Option::Some(m) => lines@[3]@ == "Mean response time: "@ + thousandths_chars(
                m as int / 1000,
            ) + " milliseconds"@,
            Option::None => lines@[3]@ == "Mean response time: not computable"@,
        },
        match r.mean_latency_nanos {
            Option::Some(m) => if m > 0 {
                lines@[4]@ == "Requests per second: "@ + thousandths_chars(
                    r.concurrency as int * 1_000_000_000_000 / m as int,
                )
            } else {
                lines@[4]@ == "Requests per second: not computable"@
            },
            Option::None => lines@[4]@ == "Requests per second: not computable"@,
        },
{
    let mut lines: Vec<String> = Vec::new();

    let mut l0 = "Successful requests: ".to_owned();
    l0.append(dec_string(r.succeeded as u128).as_str());
    lines.push(l0);

    let mut l1 = "Errored requests: ".to_owned();
    l1.append(dec_string(r.errored as u128).as_str());
    lines.push(l1);

    let mut l2 = "Concurrency: ".to_owned();
    l2.append(dec_string(r.concurrency as u128).as_str());
    lines.push(l2);

    match r.mean_latency_nanos {
        Option::Some(m) => {
            let mut l3 = "Mean response time: ".to_owned();
            l3.append(format_thousandths((m as u128) / 1000).as_str());
            l3.append(" milliseconds");
            lines.push(l3);
            match requests_per_second_milli(r.concurrency, m) {
                Option::Some(x) => {
                    let mut l4 = "Requests per second: ".to_owned();
                    l4.append(format_thousandths(x).as_str());
                    lines.push(l4);
                },
                Option::None => {
                    lines.push("Requests per second: not computable".to_owned());
                },
            }
        },
        Option::None => {
            lines.push("Mean response time: not computable".to_owned());
            lines.push("Requests per second: not computable".to_owned());
        },
    }
    lines
}

} // verus!
