use vstd::prelude::*;

verus! {

/// Shortest run accepted, and the cadence of periodic snapshots, in milliseconds.
pub const UPDATE_TIME: u64 = 1000;

/// Largest number of requests that may be in flight at once.
pub const MAX_PARALLEL_REQUESTS: usize = 5000;

/// Why a run configuration was refused before any request was sent.
#[derive(Debug, Clone, Copy, PartialEq, Eq, Structural)]
pub enum ConfigError {
    ZeroConcurrency,
    ConcurrencyTooHigh,
    ZeroDuration,
    DurationTooShort,
}

/// The error a configuration check gives, if any.
pub open spec fn config_error(parallel_requests: usize, duration_ms: u64) -> Option<ConfigError> {
    if parallel_requests == 0 {
        Some(ConfigError::ZeroConcurrency)
    } else if parallel_requests > MAX_PARALLEL_REQUESTS {
        Some(ConfigError::ConcurrencyTooHigh)
    } else if duration_ms == 0 {
        Some(ConfigError::ZeroDuration)
    } else if duration_ms < UPDATE_TIME {
        Some(ConfigError::DurationTooShort)
    } else {
        None
    }
}

/// Checks a run configuration: the concurrency level must lie in
/// `1..=MAX_PARALLEL_REQUESTS` and the run must last at least one snapshot interval.
pub fn validate_config(parallel_requests: usize, duration_ms: u64) -> (r: Result<(), ConfigError>)
    ensures
        r is Ok <==> config_error(parallel_requests, duration_ms) is None,
        r is Err ==> Some(r->Err_0) == config_error(parallel_requests, duration_ms),
{
    if parallel_requests == 0 {
        Err(ConfigError::ZeroConcurrency)
    } else if parallel_requests > MAX_PARALLEL_REQUESTS {
        Err(ConfigError::ConcurrencyTooHigh)
    } else if duration_ms == 0 {
        Err(ConfigError::ZeroDuration)
    } else if duration_ms < UPDATE_TIME {
        Err(ConfigError::DurationTooShort)
    } else {
        Ok(())
    }
}

} // verus!
