use vstd::prelude::*;

pub mod config;
pub mod dispatch;
pub mod endpoint;
pub mod error;
pub mod health;
pub mod least_conn;
pub mod random;
pub mod round_robin;
pub mod metrics;
pub mod model_manager;
pub mod strategy;
pub mod text;

pub use config::Config;
pub use endpoint::Endpoint;
pub use error::LoadBalancerError;
pub use health::HealthCheck;
pub use health::HealthChecker;
pub use metrics::Metrics;
pub use strategy::LoadBalancingStrategy;

use crate::config::EndpointConfig;
use crate::metrics::sat_inc;
use crate::strategy::Strategy;
use crate::strategy::healthy_index_list;
use crate::strategy::healthy_indices;
use crate::strategy::strategy_post;

verus! {

/// The sum of all live connection counts, saturating at the top of `u64`.
pub open spec fn conn_sum_sat(s: Seq<Endpoint>) -> u64
    decreases s.len(),
{
    if s.len() == 0 {
        0u64
    } else {
        let rest = conn_sum_sat(s.drop_last());
        let c = s.last().current_connections as u64;
        if rest > u64::MAX - c {
            u64::MAX
        } else {
            (rest + c) as u64
        }
    }
}

/// Add up the live connections of every endpoint, saturating at `u64::MAX`.
pub fn total_connections(endpoints: &Vec<Endpoint>) -> (r: u64)
    ensures
        r == conn_sum_sat(endpoints@),
{
    let mut acc: u64 = 0;
    let mut i: usize = 0;
    while i < endpoints.len()
        invariant
            i <= endpoints@.len(),
            acc == conn_sum_sat(endpoints@.take(i as int)),
        decreases endpoints@.len() - i,
    {
        proof {
            assert(endpoints@.take(i + 1).drop_last() =~= endpoints@.take(i as int));
            assert(endpoints@.take(i + 1)[i as int] == endpoints@[i as int]);
        }
        let c = endpoints[i].get_connections() as u64;
        if acc > u64::MAX - c {
            acc = u64::MAX;
        } else {
            acc = acc + c;
        }
        i = i + 1;
    }
    proof {
        assert(endpoints@.take(endpoints@.len() as int) =~= endpoints@);
    }
    acc
}

/// The endpoint pool mirrors the configured descriptors: same order, same
/// identity, every endpoint healthy with no live connections.
pub open spec fn endpoints_match_config(endpoints: Seq<Endpoint>, cfg: Seq<EndpointConfig>) -> bool {
    &&& endpoints.len() == cfg.len()
    &&& forall|i: int|
        0 <= i < cfg.len() ==> {
            let e = #[trigger] endpoints[i];
            &&& e.url == cfg[i].url
            &&& e.weight == cfg[i].weight
            &&& e.max_connections == cfg[i].max_connections
            &&& e.healthy
            &&& e.current_connections == 0
        }
}

/// The owner of the endpoint pool, a selection policy, and the metrics sink.
pub struct LoadBalancer {
    pub endpoints: Vec<Endpoint>,
    pub strategy: Strategy,
    pub metrics: Metrics,
}

impl LoadBalancer {
    /// Every endpoint honours its connection cap.
    pub open spec fn wf(&self) -> bool {
        forall|i: int| 0 <= i < self.endpoints@.len() ==> (#[trigger] self.endpoints@[i]).wf()
    }

    /// Materialize the endpoint pool from the configuration.
    pub fn new(config: &Config, strategy: Strategy) -> (lb: LoadBalancer)
        ensures
            endpoints_match_config(lb.endpoints@, config.endpoints@),
            lb.wf(),
            lb.strategy == strategy,
            lb.metrics == (Metrics { requests_total: 0, active_connections: 0, healthy_endpoints: 0 }),
    {
        let mut endpoints: Vec<Endpoint> = Vec::new();
        let mut i: usize = 0;
        while i < config.endpoints.len()
            invariant
                i <= config.endpoints@.len(),
                endpoints_match_config(endpoints@, config.endpoints@.take(i as int)),
                forall|j: int| 0 <= j < endpoints@.len() ==> (#[trigger] endpoints@[j]).wf(),
            decreases config.endpoints@.len() - i,
        {
            proof {
                assert(forall|j: int|
                    0 <= j < i ==> config.endpoints@.take(i + 1)[j] == config.endpoints@.take(
                        i as int,
                    )[j]);
                assert(config.endpoints@.take(i + 1)[i as int] == config.endpoints@[i as int]);
            }
            let ec = &config.endpoints[i];
            endpoints.push(Endpoint::new(ec.url.clone(), ec.weight, ec.max_connections));
            i = i + 1;
        }
        proof {
            assert(config.endpoints@.take(config.endpoints@.len() as int) =~= config.endpoints@);
        }
        LoadBalancer { endpoints, strategy, metrics: Metrics::new() }
    }

    /// Pick the next endpoint: count the pick, refresh the healthy gauge,
    /// delegate to the policy, and on success refresh the live-connections
    /// gauge. The pool itself is untouched.
    pub fn get_endpoint(&mut self) -> (r: Result<usize, LoadBalancerError>)
        ensures
            final(self).endpoints == old(self).endpoints,
            final(self).wf() == old(self).wf(),
            strategy_post(old(self).strategy, final(self).strategy, old(self).endpoints@, r),
            final(self).metrics.requests_total == sat_inc(old(self).metrics.requests_total),
            final(self).metrics.healthy_endpoints == healthy_indices(old(self).endpoints@).len(),
            r is Ok ==> final(self).metrics.active_connections == conn_sum_sat(
                old(self).endpoints@,
            ),
            r is Err ==> final(self).metrics.active_connections == old(
                self,
            ).metrics.active_connections,
    {
        self.metrics.increment_requests();
        let healthy = healthy_index_list(&self.endpoints);
        self.metrics.set_healthy_endpoints(healthy.len() as u64);
        let mut st = self.strategy;
        let r = st.next_endpoint(&self.endpoints);
        self.strategy = st;
        match r {
            Ok(i) => {
                let total = total_connections(&self.endpoints);
                self.metrics.set_active_connections(total);
                Ok(i)
            },
            Err(e) => Err(e),
        }
    }

    pub fn get_metrics(&self) -> (m: &Metrics)
        ensures
            m == &self.metrics,
    {
        &self.metrics
    }
}

} // verus!
