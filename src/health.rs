//! Health check results of service endpoints.
use vstd::prelude::*;
use vstd::string::*;

verus! {

/// Health status enum.
#[derive(Debug, Clone, Copy, PartialEq, Eq, Structural)]
pub enum HealthStatus {
    Healthy,
    Unhealthy,
    Unknown,
}

/// Health check result.
#[derive(Debug, Clone)]
pub struct HealthCheckResult {
    pub name: String,
    pub status: HealthStatus,
    pub response_time_ms: Option<u64>,
    pub error: Option<String>,
}

impl HealthCheckResult {
    /// The result of an endpoint that answered: healthy exactly when the
    /// answer was a success status, with the time it took.
    pub fn from_response(name: &str, success: bool, response_time_ms: u64) -> (r: HealthCheckResult)
        ensures
            r.name@ == name@,
            r.status == (if success {
                HealthStatus::Healthy
            } else {
                HealthStatus::Unhealthy
            }),
            r.response_time_ms == Some(response_time_ms),
            r.error is None,
    {
        let status = if success {
            HealthStatus::Healthy
        } else {
            HealthStatus::Unhealthy
        };
        HealthCheckResult {
            name: String::from_str(name),
            status,
            response_time_ms: Some(response_time_ms),
            error: None,
        }
    }

    /// The result of an endpoint that could not be reached: unhealthy, with
    /// the error and no time.
    pub fn from_error(name: &str, error: String) -> (r: HealthCheckResult)
        ensures
            r.name@ == name@,
            r.status == HealthStatus::Unhealthy,
            r.response_time_ms is None,
            r.error == Some(error),
    {
        HealthCheckResult {
            name: String::from_str(name),
            status: HealthStatus::Unhealthy,
            response_time_ms: None,
            error: Some(error),
        }
    }
}

/// Number of healthy results among `v`.
pub open spec fn healthy_count(v: Seq<HealthCheckResult>) -> nat
    decreases v.len(),
{
    if v.len() == 0 {
        0
    } else {
        healthy_count(v.drop_last()) + if v.last().status == HealthStatus::Healthy {
            1nat
        } else {
            0nat
        }
    }
}

/// Counts the healthy results.
pub fn count_healthy(results: &Vec<HealthCheckResult>) -> (r: usize)
    ensures
        r == healthy_count(results@),
{
    let mut n: usize = 0;
    let mut i: usize = 0;
    while i < results.len()
        invariant
            0 <= i <= results@.len(),
            n == healthy_count(results@.subrange(0, i as int)),
            n <= i,
        decreases results@.len() - i,
    {
        assert(results@.subrange(0, i + 1).drop_last() =~= results@.subrange(0, i as int));
        if results[i].status == HealthStatus::Healthy {
            n += 1;
        }
        i += 1;
    }
    assert(results@.subrange(0, results@.len() as int) =~= results@);
    n
}

} // verus!
