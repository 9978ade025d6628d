//! Composite health: the one status value derived, fresh on every query,
//! from the liveness of the result cache and of the classification backend.

use vstd::prelude::*;
use vstd::string::StringExecFns;

verus! {

/// What a single dependency's liveness probe reported.
#[derive(PartialEq, Eq, Structural, Clone, Copy, Debug)]
pub enum ProbeResult {
    Healthy,
    Unhealthy,
}

/// The service's composite status. Any dependency failure reads as
/// `Degraded`; no further distinction is made.
#[derive(PartialEq, Eq, Structural, Clone, Copy, Debug)]
pub enum ServiceStatus {
    Healthy,
    Degraded,
}

/// Composes the two probe results: healthy exactly when both dependencies
/// are healthy.
pub fn compose_health(cache: ProbeResult, classifier: ProbeResult) -> (s: ServiceStatus)
    ensures
        (s == ServiceStatus::Healthy) <==> (cache == ProbeResult::Healthy && classifier
            == ProbeResult::Healthy),
{
    if cache == ProbeResult::Healthy && classifier == ProbeResult::Healthy {
        ServiceStatus::Healthy
    } else {
        ServiceStatus::Degraded
    }
}

/// The wire label of a probe result.
pub fn probe_label(p: ProbeResult) -> (l: String)
    ensures
        p == ProbeResult::Healthy ==> l@ == "healthy"@,
        p == ProbeResult::Unhealthy ==> l@ == "unhealthy"@,
{
    match p {
        ProbeResult::Healthy => String::from_str("healthy"),
        ProbeResult::Unhealthy => String::from_str("unhealthy"),
    }
}

/// The wire label of the composite status.
pub fn status_label(s: ServiceStatus) -> (l: String)
    ensures
        s == ServiceStatus::Healthy ==> l@ == "healthy"@,
        s == ServiceStatus::Degraded ==> l@ == "degraded"@,
{
    match s {
        ServiceStatus::Healthy => String::from_str("healthy"),
        ServiceStatus::Degraded => String::from_str("degraded"),
    }
}

/// The health endpoint's body.
pub struct HealthResponse {
    pub status: String,
    pub cache: String,
    pub classifier: String,
    /// Unix seconds at which the report was built.
    pub timestamp: i64,
}

/// Builds the health report for the two fresh probe results: the composite
/// label, each dependency's own label, and the time of the query.
pub fn health_response(cache: ProbeResult, classifier: ProbeResult, now: i64) -> (r: HealthResponse)
    ensures
        (cache == ProbeResult::Healthy && classifier == ProbeResult::Healthy) ==> r.status@
            == "healthy"@,
        !(cache == ProbeResult::Healthy && classifier == ProbeResult::Healthy) ==> r.status@
            == "degraded"@,
        cache == ProbeResult::Healthy ==> r.cache@ == "healthy"@,
        cache == ProbeResult::Unhealthy ==> r.cache@ == "unhealthy"@,
        classifier == ProbeResult::Healthy ==> r.classifier@ == "healthy"@,
        classifier == ProbeResult::Unhealthy ==> r.classifier@ == "unhealthy"@,
        r.timestamp == now,
{
    let status = compose_health(cache, classifier);
    HealthResponse {
        status: status_label(status),
        cache: probe_label(cache),
        classifier: probe_label(classifier),
        timestamp: now,
    }
}

} // verus!
