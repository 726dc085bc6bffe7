//! Run configuration and its validation.
//!
//! A configuration is validated once, before any work is dispatched: the
//! total request count must divide evenly across the workers, and the HTTP
//! method — already normalized to uppercase by the caller — must be one the
//! executor supports. Both violations are fatal configuration errors, never
//! per-request ones.
use vstd::prelude::*;

use vstd::arithmetic::div_mod::lemma_fundamental_div_mod;

verus! {

/// A fatal error found while validating a configuration.
#[derive(Clone, Copy, PartialEq, Eq, Structural, Debug)]
pub enum ConfigError {
    /// `total_requests` is not evenly divisible by `concurrency` (or
    /// `concurrency` is zero, so no even split exists at all).
    NotDivisible,
    /// The requested HTTP method is not one the executor supports.
    UnsupportedMethod,
}

/// The validated inputs of one benchmark run, shared read-only by every
/// worker.
#[derive(Clone, Debug)]
pub struct Config {
    /// HTTP verb, expected in its uppercase form.
    pub method: String,
    /// Target endpoint.
    pub url: String,
    /// Request payload; the empty string means no body.
    pub body: String,
    /// Total number of exchanges to perform, over all workers.
    pub total_requests: u64,
    /// Number of parallel workers.
    pub concurrency: u64,
}

/// The HTTP verbs the request executor supports, in their normalized
/// uppercase form.
pub open spec fn supported_method(m: Seq<char>) -> bool {
    ||| m == "GET"@
    ||| m == "HEAD"@
    ||| m == "POST"@
    ||| m == "PUT"@
    ||| m == "DELETE"@
    ||| m == "OPTIONS"@
    ||| m == "TRACE"@
    ||| m == "CONNECT"@
    ||| m == "PATCH"@
}

/// The total request count splits evenly across the workers.
pub open spec fn spec_divisible(total: u64, concurrency: u64) -> bool {
    concurrency > 0 && total as int % concurrency as int == 0
}

/// A configuration on which the runner may be dispatched.
pub open spec fn spec_valid(c: Config) -> bool {
    spec_divisible(c.total_requests, c.concurrency) && supported_method(c.method@)
}

/// Whether `m` is a supported HTTP verb (in its uppercase form; a
/// lowercase spelling is normalized before it reaches the library).
pub fn is_supported_method(m: &str) -> (r: bool)
    ensures
        r == supported_method(m@),
{
    let owned = m.to_owned();
    owned == "GET".to_owned() || owned == "HEAD".to_owned() || owned == "POST".to_owned() || owned
        == "PUT".to_owned() || owned == "DELETE".to_owned() || owned == "OPTIONS".to_owned()
        || owned == "TRACE".to_owned() || owned == "CONNECT".to_owned() || owned
        == "PATCH".to_owned()
}

/// Validate a configuration before dispatch: divisibility first, as the
/// run's entry point checks it, then method support. `Ok` exactly on the
/// configurations the runner accepts.
pub fn validate(c: &Config) -> (r: Result<(), ConfigError>)
    ensures
        r is Ok <==> spec_valid(*c),
        !spec_divisible(c.total_requests, c.concurrency) ==> r == Err::<(), ConfigError>(
            ConfigError::NotDivisible,
        ),
        spec_divisible(c.total_requests, c.concurrency) && !supported_method(c.method@) ==> r
            == Err::<(), ConfigError>(ConfigError::UnsupportedMethod),
{
    if c.concurrency == 0 || c.total_requests % c.concurrency != 0 {
        Err(ConfigError::NotDivisible)
    } else if !is_supported_method(c.method.as_str()) {
        Err(ConfigError::UnsupportedMethod)
    } else {
        Ok(())
    }
}

/// The per-worker share of the total request count. Every one of the
/// `concurrency` workers is assigned exactly this many exchanges, and the
/// shares add back up to the whole.
pub fn requests_per_worker(total: u64, concurrency: u64) -> (r: u64)
    requires
        spec_divisible(total, concurrency),
    ensures
        r == total as int / concurrency as int,
        r * concurrency == total,
{
    proof {
        lemma_fundamental_div_mod(total as int, concurrency as int);
    }
    total / concurrency
}

} // verus!
