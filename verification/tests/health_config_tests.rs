use memory_server::config::{
    default_collection_name, default_host, default_max_connections, default_min_connections,
    default_port, AuditConfig, EvictionConfig,
};
use memory_server::health::{render_metrics, ComponentHealth, HealthResponse, HealthStatus};

fn response(postgres: ComponentHealth, qdrant: ComponentHealth, embedding: ComponentHealth) -> HealthResponse {
    HealthResponse {
        status: HealthStatus::Healthy,
        postgres,
        qdrant,
        embedding,
        version: "0.1.0".to_string(),
        uptime_seconds: 100,
    }
}

#[test]
fn test_component_health_healthy() {
    let health = ComponentHealth::healthy(50);
    assert_eq!(health.status, HealthStatus::Healthy);
    assert_eq!(health.latency_ms, Some(50));
    assert!(health.error.is_none());
}

#[test]
fn test_component_health_unhealthy() {
    let health = ComponentHealth::unhealthy("Connection refused");
    assert_eq!(health.status, HealthStatus::Unhealthy);
    assert!(health.latency_ms.is_none());
    assert_eq!(health.error, Some("Connection refused".to_string()));
}

#[test]
fn test_component_health_degraded() {
    let health = ComponentHealth::degraded(100, "High latency");
    assert_eq!(health.status, HealthStatus::Degraded);
    assert_eq!(health.latency_ms, Some(100));
    assert_eq!(health.error, Some("High latency".to_string()));
}

#[test]
fn test_health_response_compute_overall_healthy() {
    let mut r = response(
        ComponentHealth::healthy(10),
        ComponentHealth::healthy(20),
        ComponentHealth::healthy(5),
    );
    r.compute_overall_status();
    assert_eq!(r.status, HealthStatus::Healthy);
}

#[test]
fn test_health_response_compute_overall_degraded() {
    let mut r = response(
        ComponentHealth::healthy(10),
        ComponentHealth::unhealthy("Connection failed"),
        ComponentHealth::healthy(5),
    );
    r.compute_overall_status();
    assert_eq!(r.status, HealthStatus::Degraded);
}

#[test]
fn test_health_response_compute_overall_unhealthy() {
    let mut r = response(
        ComponentHealth::unhealthy("Connection refused"),
        ComponentHealth::healthy(20),
        ComponentHealth::healthy(5),
    );
    r.compute_overall_status();
    assert_eq!(r.status, HealthStatus::Unhealthy);
}

#[test]
fn degraded_component_degrades_service() {
    let mut r = response(
        ComponentHealth::healthy(10),
        ComponentHealth::healthy(20),
        ComponentHealth::degraded(900, "slow"),
    );
    r.compute_overall_status();
    assert_eq!(r.status, HealthStatus::Degraded);
    assert_eq!(r.status.http_status_code(), 200);
    assert_eq!(HealthStatus::Unhealthy.http_status_code(), 503);
}

#[test]
fn metrics_text_lists_uptime_and_version() {
    let m = render_metrics(42, "0.1.0");
    assert!(m.contains("memory_server_uptime_seconds 42\n"));
    assert!(m.contains("memory_server_info{version=\"0.1.0\"} 1\n"));
    assert!(m.starts_with("# HELP memory_server_uptime_seconds"));
}

#[test]
fn test_default_values() {
    assert_eq!(default_host(), "0.0.0.0");
    assert_eq!(default_port(), 8080);
    assert_eq!(default_max_connections(), 10);
    assert_eq!(default_min_connections(), 2);
    assert_eq!(default_collection_name(), "memories");
}

#[test]
fn test_audit_config_default() {
    let audit = AuditConfig::default();
    assert!(audit.enabled);
    assert_eq!(audit.retention_days, 90);
}

#[test]
fn eviction_config_defaults() {
    let c = EvictionConfig::default();
    assert_eq!(c.cooldown_threshold_days, 7);
    assert_eq!(c.candidate_threshold_days, 14);
    assert_eq!(c.archive_threshold_days, 30);
    assert_eq!(c.max_memories_per_scope, 1000);
    assert_eq!(c.max_global_memories, 10000);
    assert_eq!(c.batch_size, 100);
}

#[test]
fn test_config_routes_empty() {
    // No configuration routes exist: providers are configured in the configuration file.
}

#[test]
fn test_config_repository_creation() {
    // Configuration storage holds nothing beyond the configuration file.
}
