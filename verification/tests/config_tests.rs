use loadbench::config::Config;
use loadbench::config::ConfigError;
use loadbench::config::is_supported_method;
use loadbench::config::requests_per_worker;
use loadbench::config::validate;

fn config(method: &str, total: u64, concurrency: u64) -> Config {
    Config {
        method: method.to_string(),
        url: "http://localhost/".to_string(),
        body: "".to_string(),
        total_requests: total,
        concurrency,
    }
}

#[test]
fn validate_rejects_uneven_split() {
    let r = validate(&config("GET", 10, 3));
    assert_eq!(r, Err(ConfigError::NotDivisible));
}

#[test]
fn validate_rejects_zero_concurrency() {
    let r = validate(&config("GET", 10, 0));
    assert_eq!(r, Err(ConfigError::NotDivisible));
}

#[test]
fn validate_rejects_unsupported_method() {
    let r = validate(&config("FOOBAR", 9, 3));
    assert_eq!(r, Err(ConfigError::UnsupportedMethod));
}

#[test]
fn validate_reports_divisibility_before_method() {
    let r = validate(&config("FOOBAR", 10, 3));
    assert_eq!(r, Err(ConfigError::NotDivisible));
}

#[test]
fn validate_accepts_even_split_with_get() {
    assert_eq!(validate(&config("GET", 10, 2)), Ok(()));
    assert_eq!(validate(&config("GET", 1, 1)), Ok(()));
}

#[test]
fn all_standard_verbs_are_supported() {
    for m in ["GET", "HEAD", "POST", "PUT", "DELETE", "OPTIONS", "TRACE", "CONNECT", "PATCH"] {
        assert!(is_supported_method(m), "{} should be supported", m);
    }
}

#[test]
fn unnormalized_or_unknown_methods_are_not_supported() {
    assert!(!is_supported_method("get"));
    assert!(!is_supported_method("Get"));
    assert!(!is_supported_method("FOOBAR"));
    assert!(!is_supported_method(""));
}

#[test]
fn per_worker_share_is_the_even_split() {
    assert_eq!(requests_per_worker(10, 2), 5);
    assert_eq!(requests_per_worker(9, 3), 3);
    assert_eq!(requests_per_worker(0, 4), 0);
    assert_eq!(requests_per_worker(7, 1), 7);
}
