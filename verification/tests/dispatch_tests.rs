use ollama_manager::dispatch::{
    build_forward_url, build_health_report, contains_str, error_status_code, health_status_code,
    is_streaming_content_type, method_needs_body, should_forward_header, MAX_BODY_BYTES,
};
use ollama_manager::endpoint::Endpoint;
use ollama_manager::error::LoadBalancerError;
use ollama_manager::health::{apply_probe_outcomes, HealthCheck, HealthChecker};
use ollama_manager::config::HealthCheckConfig;

#[test]
fn forward_url_keeps_path_and_query() {
    assert_eq!(
        build_forward_url("http://a", "/api/generate", Some("stream=true")),
        "http://a/api/generate?stream=true"
    );
    assert_eq!(
        build_forward_url("http://a", "/api/generate", None),
        "http://a/api/generate"
    );
    assert_eq!(build_forward_url("http://a", "/", None), "http://a/");
}

#[test]
fn host_header_is_dropped_in_any_case() {
    assert!(!should_forward_header("host"));
    assert!(!should_forward_header("Host"));
    assert!(!should_forward_header("HOST"));
    assert!(!should_forward_header("hOsT"));
}

#[test]
fn other_headers_are_forwarded() {
    assert!(should_forward_header("content-type"));
    assert!(should_forward_header("content-length"));
    assert!(should_forward_header("hos"));
    assert!(should_forward_header("hosts"));
    assert!(should_forward_header("x-host"));
    assert!(should_forward_header(""));
}

#[test]
fn only_post_and_put_carry_a_body() {
    assert!(method_needs_body("POST"));
    assert!(method_needs_body("PUT"));
    assert!(!method_needs_body("GET"));
    assert!(!method_needs_body("DELETE"));
    assert!(!method_needs_body("HEAD"));
    assert!(!method_needs_body("post"));
}

#[test]
fn body_cap_is_32_mib() {
    assert_eq!(MAX_BODY_BYTES, 33554432);
}

#[test]
fn ndjson_content_types_stream() {
    assert!(is_streaming_content_type("application/x-ndjson"));
    assert!(is_streaming_content_type(
        "application/x-ndjson; charset=utf-8"
    ));
    assert!(is_streaming_content_type(
        "some/other; application/x-ndjson"
    ));
}

#[test]
fn other_content_types_buffer() {
    assert!(!is_streaming_content_type("application/json"));
    assert!(!is_streaming_content_type("text/plain"));
    assert!(!is_streaming_content_type(""));
    assert!(!is_streaming_content_type("application/x-ndjso"));
}

#[test]
fn substring_search_edges() {
    assert!(contains_str("abc", ""));
    assert!(contains_str("", ""));
    assert!(!contains_str("", "a"));
    assert!(contains_str("abc", "abc"));
    assert!(contains_str("xabcx", "abc"));
    assert!(!contains_str("ab", "abc"));
    assert!(!contains_str("abd", "abc"));
}

#[test]
fn health_report_counts_ready_endpoints() {
    let mut endpoints = vec![
        Endpoint::new("http://a".to_string(), 1, 10),
        Endpoint::new("http://b".to_string(), 1, 10),
        Endpoint::new("http://c".to_string(), 1, 10),
    ];
    endpoints[1].mark_unhealthy();
    endpoints[2].increment_connections();
    // a: healthy and has the model; b: unhealthy; c: healthy, model missing.
    let model_available = vec![true, true, false];
    let report = build_health_report(&endpoints, &model_available);
    assert_eq!(report.total_endpoints, 3);
    assert_eq!(report.healthy_count, 1);
    assert_eq!(report.status, "OK");
    assert_eq!(report.healthy_endpoints.len(), 3);
    assert_eq!(report.healthy_endpoints[0].url, "http://a");
    assert!(report.healthy_endpoints[0].healthy);
    assert!(report.healthy_endpoints[0].model_available);
    assert!(!report.healthy_endpoints[1].healthy);
    assert_eq!(report.healthy_endpoints[2].current_connections, 1);
    assert!(!report.healthy_endpoints[2].model_available);
    assert_eq!(health_status_code(report.healthy_count), 200);
}

#[test]
fn health_report_unhealthy_when_nothing_is_ready() {
    let mut endpoints = vec![Endpoint::new("http://a".to_string(), 1, 10)];
    endpoints[0].mark_unhealthy();
    let report = build_health_report(&endpoints, &vec![false]);
    assert_eq!(report.healthy_count, 0);
    assert_eq!(report.status, "UNHEALTHY");
    assert_eq!(health_status_code(report.healthy_count), 503);
}

#[test]
fn error_statuses_follow_the_variant() {
    assert_eq!(error_status_code(&LoadBalancerError::NoHealthyEndpoints), 503);
    assert_eq!(
        error_status_code(&LoadBalancerError::ConfigError("x".to_string())),
        500
    );
    assert_eq!(
        error_status_code(&LoadBalancerError::HttpError("x".to_string())),
        500
    );
    assert_eq!(
        error_status_code(&LoadBalancerError::IoError("x".to_string())),
        500
    );
}

#[test]
fn probe_outcomes_fold_into_the_health_flag() {
    let mut e = Endpoint::new("http://a".to_string(), 1, 10);
    assert!(apply_probe_outcomes(&mut e, true, Ok(true)));
    assert!(e.is_healthy());
    assert!(!apply_probe_outcomes(&mut e, true, Ok(false)));
    assert!(!e.is_healthy());
    assert!(!apply_probe_outcomes(&mut e, false, Ok(true)));
    assert!(!e.is_healthy());
    assert!(!apply_probe_outcomes(
        &mut e,
        true,
        Err(LoadBalancerError::HttpError("timeout".to_string()))
    ));
    assert!(!e.is_healthy());
}

struct ScriptedProbe {
    verdict: Result<bool, &'static str>,
}

impl HealthCheck for ScriptedProbe {
    fn check_health(&self, _endpoint: &Endpoint) -> Result<bool, LoadBalancerError> {
        match self.verdict {
            Ok(b) => Ok(b),
            Err(m) => Err(LoadBalancerError::HttpError(m.to_string())),
        }
    }
}

fn check_config() -> HealthCheckConfig {
    HealthCheckConfig {
        interval_seconds: 30,
        timeout_seconds: 5,
        unhealthy_threshold: 3,
        healthy_threshold: 2,
    }
}

#[test]
fn passing_probe_marks_endpoint_healthy() {
    let checker = HealthChecker::new(ScriptedProbe { verdict: Ok(true) }, check_config());
    let mut e = Endpoint::new("http://a".to_string(), 1, 10);
    e.mark_unhealthy();
    assert_eq!(checker.check_single_endpoint(&mut e).unwrap(), true);
    assert!(e.is_healthy());
}

#[test]
fn failing_probe_marks_endpoint_unhealthy() {
    let checker = HealthChecker::new(ScriptedProbe { verdict: Ok(false) }, check_config());
    let mut e = Endpoint::new("http://a".to_string(), 1, 10);
    assert_eq!(checker.check_single_endpoint(&mut e).unwrap(), false);
    assert!(!e.is_healthy());
}

#[test]
fn probe_error_is_swallowed_into_unhealthy() {
    let checker = HealthChecker::new(
        ScriptedProbe {
            verdict: Err("connection refused"),
        },
        check_config(),
    );
    let mut e = Endpoint::new("http://a".to_string(), 1, 10);
    assert!(checker.check_single_endpoint(&mut e).is_err());
    assert!(!e.is_healthy());
}

#[test]
fn health_pass_touches_only_the_health_flags() {
    let checker = HealthChecker::new(ScriptedProbe { verdict: Ok(false) }, check_config());
    let mut endpoints = vec![
        Endpoint::new("http://a".to_string(), 3, 10),
        Endpoint::new("http://b".to_string(), 4, 20),
    ];
    endpoints[0].increment_connections();
    checker.run_health_pass(&mut endpoints);
    assert!(!endpoints[0].is_healthy());
    assert!(!endpoints[1].is_healthy());
    assert_eq!(endpoints[0].url, "http://a");
    assert_eq!(endpoints[0].weight, 3);
    assert_eq!(endpoints[0].get_connections(), 1);
    assert_eq!(endpoints[1].get_connections(), 0);
}
