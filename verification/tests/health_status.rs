use phishguard::health::{compose_health, health_response, ProbeResult, ServiceStatus};

#[test]
fn test_healthy_only_when_both_healthy() {
    assert_eq!(
        compose_health(ProbeResult::Healthy, ProbeResult::Healthy),
        ServiceStatus::Healthy
    );
    assert_eq!(
        compose_health(ProbeResult::Healthy, ProbeResult::Unhealthy),
        ServiceStatus::Degraded
    );
    assert_eq!(
        compose_health(ProbeResult::Unhealthy, ProbeResult::Healthy),
        ServiceStatus::Degraded
    );
    assert_eq!(
        compose_health(ProbeResult::Unhealthy, ProbeResult::Unhealthy),
        ServiceStatus::Degraded
    );
}

#[test]
fn test_degraded_when_classifier_probe_fails() {
    // Cache probe succeeds, classifier probe fails: the report says
    // degraded, never healthy.
    let r = health_response(ProbeResult::Healthy, ProbeResult::Unhealthy, 1_700_000_000);
    assert_eq!(r.status, "degraded");
    assert_eq!(r.cache, "healthy");
    assert_eq!(r.classifier, "unhealthy");
    assert_eq!(r.timestamp, 1_700_000_000);
}

#[test]
fn test_healthy_report() {
    let r = health_response(ProbeResult::Healthy, ProbeResult::Healthy, 5);
    assert_eq!(r.status, "healthy");
    assert_eq!(r.cache, "healthy");
    assert_eq!(r.classifier, "healthy");
}
