use ollama_manager::config::{Config, EndpointConfig, HealthCheckConfig, RetryConfig};
use ollama_manager::endpoint::Endpoint;
use ollama_manager::error::LoadBalancerError;
use ollama_manager::least_conn::LeastConnections;
use ollama_manager::random::RandomStrategy;
use ollama_manager::round_robin::RoundRobin;
use ollama_manager::strategy::{create_strategy, LoadBalancingStrategy};
use ollama_manager::LoadBalancer;

fn test_config(urls: &[&str], strategy: &str) -> Config {
    Config {
        endpoints: urls
            .iter()
            .map(|u| EndpointConfig {
                url: u.to_string(),
                weight: 1,
                max_connections: 10,
            })
            .collect(),
        health_check: HealthCheckConfig {
            interval_seconds: 30,
            timeout_seconds: 5,
            unhealthy_threshold: 3,
            healthy_threshold: 2,
        },
        strategy: strategy.to_string(),
        retry: RetryConfig {
            max_attempts: 3,
            initial_interval_ms: 100,
            max_interval_ms: 1000,
        },
        required_model: "llama3".to_string(),
    }
}

#[test]
fn round_robin_alternates_over_two_endpoints() {
    let config = test_config(&["http://a", "http://b"], "round_robin");
    let mut lb = LoadBalancer::new(&config, create_strategy(&config.strategy));
    let picks: Vec<usize> = (0..4).map(|_| lb.get_endpoint().unwrap()).collect();
    assert_eq!(picks, vec![0, 1, 0, 1]);
    assert_eq!(lb.endpoints[0].url, "http://a");
    assert_eq!(lb.endpoints[1].url, "http://b");
}

#[test]
fn round_robin_fairness_over_three_endpoints() {
    let config = test_config(&["http://a", "http://b", "http://c"], "round_robin");
    let mut lb = LoadBalancer::new(&config, create_strategy(&config.strategy));
    let mut counts = [0usize; 3];
    for _ in 0..7 {
        counts[lb.get_endpoint().unwrap()] += 1;
    }
    // 7 picks over 3 endpoints: each picked floor(7/3) = 2 or ceil(7/3) = 3 times.
    let mut sorted = counts.to_vec();
    sorted.sort();
    assert_eq!(sorted, vec![2, 2, 3]);
}

#[test]
fn round_robin_skips_unhealthy() {
    let config = test_config(&["http://a", "http://b", "http://c"], "round_robin");
    let mut lb = LoadBalancer::new(&config, create_strategy(&config.strategy));
    lb.endpoints[1].mark_unhealthy();
    let picks: Vec<usize> = (0..4).map(|_| lb.get_endpoint().unwrap()).collect();
    assert_eq!(picks, vec![0, 2, 0, 2]);
}

#[test]
fn least_connections_picks_fewest() {
    let mut endpoints = vec![
        Endpoint::new("http://a".to_string(), 1, 10),
        Endpoint::new("http://b".to_string(), 1, 10),
    ];
    for _ in 0..3 {
        assert!(endpoints[0].increment_connections());
    }
    assert!(endpoints[1].increment_connections());
    assert_eq!(endpoints[0].get_connections(), 3);
    assert_eq!(endpoints[1].get_connections(), 1);
    let mut lc = LeastConnections::new();
    assert_eq!(lc.next_endpoint(&endpoints).unwrap(), 1);
}

#[test]
fn least_connections_tie_breaks_by_position() {
    let endpoints = vec![
        Endpoint::new("http://a".to_string(), 1, 10),
        Endpoint::new("http://b".to_string(), 1, 10),
        Endpoint::new("http://c".to_string(), 1, 10),
    ];
    let mut lc = LeastConnections::new();
    assert_eq!(lc.next_endpoint(&endpoints).unwrap(), 0);
}

#[test]
fn least_connections_ignores_unhealthy_minimum() {
    let mut endpoints = vec![
        Endpoint::new("http://a".to_string(), 1, 10),
        Endpoint::new("http://b".to_string(), 1, 10),
    ];
    endpoints[0].mark_unhealthy();
    assert!(endpoints[1].increment_connections());
    let mut lc = LeastConnections::new();
    assert_eq!(lc.next_endpoint(&endpoints).unwrap(), 1);
}

#[test]
fn random_picks_only_healthy() {
    let mut endpoints = vec![
        Endpoint::new("http://a".to_string(), 1, 10),
        Endpoint::new("http://b".to_string(), 1, 10),
        Endpoint::new("http://c".to_string(), 1, 10),
    ];
    endpoints[0].mark_unhealthy();
    endpoints[2].mark_unhealthy();
    let mut rs = RandomStrategy::new();
    for _ in 0..25 {
        assert_eq!(rs.next_endpoint(&endpoints).unwrap(), 1);
    }
}

#[test]
fn random_stays_within_healthy_set() {
    let mut endpoints = vec![
        Endpoint::new("http://a".to_string(), 1, 10),
        Endpoint::new("http://b".to_string(), 1, 10),
        Endpoint::new("http://c".to_string(), 1, 10),
        Endpoint::new("http://d".to_string(), 1, 10),
    ];
    endpoints[1].mark_unhealthy();
    let mut rs = RandomStrategy::new();
    for _ in 0..50 {
        let pick = rs.next_endpoint(&endpoints).unwrap();
        assert!(pick != 1 && pick < 4);
        assert!(endpoints[pick].is_healthy());
    }
}

#[test]
fn all_strategies_fail_when_no_endpoint_is_healthy() {
    let mut endpoints = vec![
        Endpoint::new("http://a".to_string(), 1, 10),
        Endpoint::new("http://b".to_string(), 1, 10),
    ];
    endpoints[0].mark_unhealthy();
    endpoints[1].mark_unhealthy();
    let mut rr = RoundRobin::new();
    let mut lc = LeastConnections::new();
    let mut rs = RandomStrategy::new();
    assert!(matches!(
        rr.next_endpoint(&endpoints),
        Err(LoadBalancerError::NoHealthyEndpoints)
    ));
    assert!(matches!(
        lc.next_endpoint(&endpoints),
        Err(LoadBalancerError::NoHealthyEndpoints)
    ));
    assert!(matches!(
        rs.next_endpoint(&endpoints),
        Err(LoadBalancerError::NoHealthyEndpoints)
    ));
}

#[test]
fn get_endpoint_fails_on_single_unhealthy_endpoint() {
    let config = test_config(&["http://a"], "round_robin");
    let mut lb = LoadBalancer::new(&config, create_strategy(&config.strategy));
    lb.endpoints[0].mark_unhealthy();
    assert!(matches!(
        lb.get_endpoint(),
        Err(LoadBalancerError::NoHealthyEndpoints)
    ));
}

#[test]
fn unknown_strategy_name_falls_back_to_round_robin() {
    let config = test_config(&["http://a", "http://b"], "weighted_mystery");
    let mut lb = LoadBalancer::new(&config, create_strategy(&config.strategy));
    let picks: Vec<usize> = (0..3).map(|_| lb.get_endpoint().unwrap()).collect();
    assert_eq!(picks, vec![0, 1, 0]);
}

#[test]
fn get_endpoint_updates_metrics() {
    let config = test_config(&["http://a", "http://b"], "round_robin");
    let mut lb = LoadBalancer::new(&config, create_strategy(&config.strategy));
    assert_eq!(lb.get_metrics().requests_total, 0);
    lb.endpoints[0].increment_connections();
    lb.endpoints[0].increment_connections();
    lb.endpoints[1].increment_connections();
    lb.endpoints[1].mark_unhealthy();
    let pick = lb.get_endpoint().unwrap();
    assert_eq!(pick, 0);
    let metrics = lb.get_metrics();
    assert_eq!(metrics.requests_total, 1);
    assert_eq!(metrics.healthy_endpoints, 1);
    assert_eq!(metrics.active_connections, 3);
}

#[test]
fn pool_is_materialized_from_config() {
    let config = test_config(&["http://a", "http://b"], "round_robin");
    let lb = LoadBalancer::new(&config, create_strategy(&config.strategy));
    assert_eq!(lb.endpoints.len(), 2);
    for (e, c) in lb.endpoints.iter().zip(config.endpoints.iter()) {
        assert_eq!(e.url, c.url);
        assert_eq!(e.weight, c.weight);
        assert_eq!(e.max_connections, c.max_connections);
        assert!(e.is_healthy());
        assert_eq!(e.get_connections(), 0);
    }
}

#[test]
fn load_balancer_with_least_connections_strategy() {
    let config = test_config(&["http://a", "http://b"], "least_connections");
    let mut lb = LoadBalancer::new(&config, create_strategy(&config.strategy));
    for _ in 0..3 {
        lb.endpoints[0].increment_connections();
    }
    lb.endpoints[1].increment_connections();
    assert_eq!(lb.get_endpoint().unwrap(), 1);
}

#[test]
fn load_balancer_with_random_strategy() {
    let config = test_config(&["http://a", "http://b"], "random");
    let mut lb = LoadBalancer::new(&config, create_strategy(&config.strategy));
    lb.endpoints[0].mark_unhealthy();
    for _ in 0..10 {
        assert_eq!(lb.get_endpoint().unwrap(), 1);
    }
}
