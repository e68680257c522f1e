//! Service health: component states, the overall status and the metrics text.
use vstd::prelude::*;
use crate::text::{decimal, push_decimal, push_str};

verus! {

/// Health status of the service or of one component.
#[derive(Debug, Clone, Copy, PartialEq, Eq, Structural)]
pub enum HealthStatus {
    /// All components are healthy
    Healthy,
    /// Some components are degraded but service is operational
    Degraded,
    /// Service is unhealthy
    Unhealthy,
}

impl HealthStatus {
    /// The snake_case name of the status.
    pub open spec fn spec_name(self) -> Seq<char> {
        match self {
            HealthStatus::Healthy => "healthy"@,
            HealthStatus::Degraded => "degraded"@,
            HealthStatus::Unhealthy => "unhealthy"@,
        }
    }

    /// The snake_case name of the status.
    pub fn as_str(&self) -> (s: &'static str)
        ensures
            s@ == self.spec_name(),
    {
        match self {
            HealthStatus::Healthy => "healthy",
            HealthStatus::Degraded => "degraded",
            HealthStatus::Unhealthy => "unhealthy",
        }
    }

    /// The HTTP status answered for an overall health: 503 when unhealthy,
    /// else 200.
    pub fn http_status_code(&self) -> (code: u16)
        ensures
            code == (if *self is Unhealthy { 503u16 } else { 200u16 }),
    {
        match self {
            HealthStatus::Unhealthy => 503,
            _ => 200,
        }
    }
}

/// Component health information.
#[derive(Debug, Clone)]
pub struct ComponentHealth {
    /// Component status
    pub status: HealthStatus,
    /// Latency in milliseconds (if available)
    pub latency_ms: Option<u64>,
    /// Error message (if unhealthy)
    pub error: Option<String>,
}

impl ComponentHealth {
    /// A healthy component status.
    pub fn healthy(latency_ms: u64) -> (h: ComponentHealth)
        ensures
            h.status == HealthStatus::Healthy,
            h.latency_ms == Some(latency_ms),
            h.error is None,
    {
        ComponentHealth { status: HealthStatus::Healthy, latency_ms: Some(latency_ms), error: None }
    }

    /// An unhealthy component status, with its error.
    pub fn unhealthy(error: &str) -> (h: ComponentHealth)
        ensures
            h.status == HealthStatus::Unhealthy,
            h.latency_ms is None,
            h.error matches Some(e) && e@ == error@,
    {
        ComponentHealth {
            status: HealthStatus::Unhealthy,
            latency_ms: None,
            error: Some(error.to_owned()),
        }
    }

    /// A degraded component status, with its latency and error.
    pub fn degraded(latency_ms: u64, error: &str) -> (h: ComponentHealth)
        ensures
            h.status == HealthStatus::Degraded,
            h.latency_ms == Some(latency_ms),
            h.error matches Some(e) && e@ == error@,
    {
        ComponentHealth {
            status: HealthStatus::Degraded,
            latency_ms: Some(latency_ms),
            error: Some(error.to_owned()),
        }
    }
}

/// Health check response.
#[derive(Debug, Clone)]
pub struct HealthResponse {
    /// Overall service status
    pub status: HealthStatus,
    /// PostgreSQL health
    pub postgres: ComponentHealth,
    /// Qdrant health
    pub qdrant: ComponentHealth,
    /// Embedding provider health
    pub embedding: ComponentHealth,
    /// Service version
    pub version: String,
    /// Uptime in seconds
    pub uptime_seconds: u64,
}

/// The overall status for the three component statuses: PostgreSQL is
/// critical, so its failure makes the service unhealthy; a failure of Qdrant
/// or the embedding provider, or any degraded component, makes it degraded.
pub open spec fn overall_status(
    postgres: HealthStatus,
    qdrant: HealthStatus,
    embedding: HealthStatus,
) -> HealthStatus {
    if postgres is Unhealthy {
        HealthStatus::Unhealthy
    } else if qdrant is Unhealthy || embedding is Unhealthy {
        HealthStatus::Degraded
    } else if postgres is Degraded || qdrant is Degraded || embedding is Degraded {
        HealthStatus::Degraded
    } else {
        HealthStatus::Healthy
    }
}

impl HealthResponse {
    /// Sets the overall status from the component statuses.
    pub fn compute_overall_status(&mut self)
        ensures
            final(self).status == overall_status(
                old(self).postgres.status,
                old(self).qdrant.status,
                old(self).embedding.status,
            ),
            final(self).postgres == old(self).postgres,
            final(self).qdrant == old(self).qdrant,
            final(self).embedding == old(self).embedding,
            final(self).version == old(self).version,
            final(self).uptime_seconds == old(self).uptime_seconds,
    {
        let any_unhealthy = self.postgres.status == HealthStatus::Unhealthy
            || self.qdrant.status == HealthStatus::Unhealthy
            || self.embedding.status == HealthStatus::Unhealthy;
        let any_degraded = self.postgres.status == HealthStatus::Degraded
            || self.qdrant.status == HealthStatus::Degraded
            || self.embedding.status == HealthStatus::Degraded;
        if any_unhealthy {
            if self.postgres.status == HealthStatus::Unhealthy {
                self.status = HealthStatus::Unhealthy;
            } else {
                self.status = HealthStatus::Degraded;
            }
        } else if any_degraded {
            self.status = HealthStatus::Degraded;
        } else {
            self.status = HealthStatus::Healthy;
        }
    }
}

/// The overall status is unhealthy exactly when PostgreSQL is, healthy
/// exactly when every component is, and degraded otherwise; a failure of
/// Qdrant or of the embedding provider never makes the service unhealthy.
pub proof fn overall_status_law(p: HealthStatus, q: HealthStatus, e: HealthStatus)
    ensures
        (overall_status(p, q, e) is Unhealthy) <==> (p is Unhealthy),
        (overall_status(p, q, e) is Healthy) <==> (p is Healthy && q is Healthy && e is Healthy),
        (overall_status(p, q, e) is Degraded) <==> (!(p is Unhealthy) && !(p is Healthy
            && q is Healthy && e is Healthy)),
{
}

/// The Prometheus metrics text for an uptime and a version.
pub open spec fn metrics_text(uptime_seconds: nat, version: Seq<char>) -> Seq<char> {
    "# HELP memory_server_uptime_seconds Time since server started\n# TYPE memory_server_uptime_seconds gauge\nmemory_server_uptime_seconds "@
        + decimal(uptime_seconds)
        + "\n\n# HELP memory_server_info Server information\n# TYPE memory_server_info gauge\nmemory_server_info{version=\""@
        + version + "\"} 1\n"@
}

/// Renders the Prometheus metrics text.
pub fn render_metrics(uptime_seconds: u64, version: &str) -> (r: String)
    ensures
        r@ == metrics_text(uptime_seconds as nat, version@),
{
    let mut m = "# HELP memory_server_uptime_seconds Time since server started\n# TYPE memory_server_uptime_seconds gauge\nmemory_server_uptime_seconds ".to_owned();
    push_decimal(&mut m, uptime_seconds);
    push_str(
        &mut m,
        "\n\n# HELP memory_server_info Server information\n# TYPE memory_server_info gauge\nmemory_server_info{version=\"",
    );
    push_str(&mut m, version);
    push_str(&mut m, "\"} 1\n");
    m
}

} // verus!
