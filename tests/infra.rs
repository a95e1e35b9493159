use optima_ops::health::{HealthCheckResult, HealthStatus};
use optima_ops::infra::{InfraClient, InfrastructureStatus};

#[test]
fn empty_and_error_status() {
    let s = InfrastructureStatus::new();
    assert!(s.ec2_instances.is_empty());
    assert!(s.last_updated.is_none());
    assert!(s.error.is_none());
    let e = InfrastructureStatus::with_error("AWS error: denied".to_string());
    assert_eq!(e.error.as_deref(), Some("AWS error: denied"));
    assert!(e.albs.is_empty());
}

#[test]
fn client_status_fixture() {
    let c = InfraClient::new("ap-southeast-1");
    assert_eq!(c.region(), "ap-southeast-1");
    let s = c.get_mock_status("2024-01-01T00:00:00+00:00".to_string());
    assert_eq!(s.ecs_services.len(), 2);
    assert_eq!(s.ecs_clusters[0].running_tasks, 5);
    assert_eq!(s.last_updated.as_deref(), Some("2024-01-01T00:00:00+00:00"));
    let live = c.get_status();
    let stamp = live.last_updated.unwrap();
    assert!(stamp.contains('T'));
    assert_eq!(live.rds_instances[0].identifier, "optima-prod-postgres");
}

#[test]
fn health_results() {
    let ok = HealthCheckResult::from_response("auth", true, 12);
    assert_eq!(ok.status, HealthStatus::Healthy);
    assert_eq!(ok.response_time_ms, Some(12));
    let bad = HealthCheckResult::from_response("auth", false, 30);
    assert_eq!(bad.status, HealthStatus::Unhealthy);
    let down = HealthCheckResult::from_error("auth", "timeout".to_string());
    assert_eq!(down.status, HealthStatus::Unhealthy);
    assert_eq!(down.error.as_deref(), Some("timeout"));
    assert!(down.response_time_ms.is_none());
}

#[test]
fn healthy_counting() {
    let results = vec![
        HealthCheckResult::from_response("a", true, 1),
        HealthCheckResult::from_response("b", false, 2),
        HealthCheckResult::from_error("c", "down".to_string()),
        HealthCheckResult::from_response("d", true, 3),
    ];
    assert_eq!(optima_ops::health::count_healthy(&results), 2);
    assert_eq!(optima_ops::health::count_healthy(&Vec::new()), 0);
}
