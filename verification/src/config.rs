use vstd::prelude::*;

verus! {

/// Descriptor of one backend endpoint as it appears in the configuration.
#[derive(Debug, Clone)]
pub struct EndpointConfig {
    pub url: String,
    pub weight: u32,
    pub max_connections: u32,
}

/// Policy of the periodic health loop. The thresholds are part of the
/// configuration surface and reserved: the core flips the health flag on
/// every single probe.
#[derive(Debug, Clone)]
pub struct HealthCheckConfig {
    pub interval_seconds: u64,
    pub timeout_seconds: u64,
    pub unhealthy_threshold: u32,
    pub healthy_threshold: u32,
}

/// Retry policy. Reserved: consumed by the parser, not exercised by the core.
#[derive(Debug, Clone)]
pub struct RetryConfig {
    pub max_attempts: u32,
    pub initial_interval_ms: u64,
    pub max_interval_ms: u64,
}

/// The whole configuration record, loaded once at startup and immutable
/// thereafter.
#[derive(Debug, Clone)]
pub struct Config {
    pub endpoints: Vec<EndpointConfig>,
    pub health_check: HealthCheckConfig,
    pub strategy: String,
    pub retry: RetryConfig,
    pub required_model: String,
}

} // verus!
