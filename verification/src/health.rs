use vstd::prelude::*;

use crate::config::HealthCheckConfig;
use crate::endpoint::Endpoint;
use crate::error::LoadBalancerError;

verus! {

/// A probe of one endpoint: `Ok(true)` exactly when the endpoint should be
/// considered healthy. Implementations live at the edge of the system and
/// promise nothing here; what their outcome does to an endpoint is fixed by
/// the checker below.
pub trait HealthCheck: Sized {
    fn check_health(&self, endpoint: &Endpoint) -> (r: Result<bool, LoadBalancerError>);
}

/// An endpoint is healthy exactly when the liveness probe and the
/// model-presence probe both passed.
pub open spec fn probes_verdict(live: bool, model: Result<bool, LoadBalancerError>) -> bool {
    live && model == Ok::<bool, LoadBalancerError>(true)
}

/// Fold the two probe outcomes into the endpoint's health flag: healthy on
/// combined success, unhealthy on any failure, the rest of the endpoint
/// untouched.
pub fn apply_probe_outcomes(
    endpoint: &mut Endpoint,
    live: bool,
    model: Result<bool, LoadBalancerError>,
) -> (healthy: bool)
    ensures
        healthy == probes_verdict(live, model),
        final(endpoint).healthy == healthy,
        final(endpoint).same_identity(old(endpoint)),
        final(endpoint).current_connections == old(endpoint).current_connections,
{
    let verdict = match model {
        Ok(present) => live && present,
        Err(_) => false,
    };
    if verdict {
        endpoint.mark_healthy();
    } else {
        endpoint.mark_unhealthy();
    }
    verdict
}

/// Runs the probes over the pool on a fixed interval; the ticking itself is
/// the host's, the verdict logic is here.
pub struct HealthChecker<C: HealthCheck> {
    pub checker: C,
    pub config: HealthCheckConfig,
}

impl<C: HealthCheck> HealthChecker<C> {
    pub fn new(checker: C, config: HealthCheckConfig) -> (h: HealthChecker<C>)
        ensures
            h.checker == checker,
            h.config == config,
    {
        HealthChecker { checker, config }
    }

    /// Probe one endpoint and fold the outcome into its health flag: healthy
    /// exactly when the probe answered `Ok(true)`, unhealthy on `Ok(false)`
    /// and on any probe error.
    pub fn check_single_endpoint(&self, endpoint: &mut Endpoint) -> (r: Result<
        bool,
        LoadBalancerError,
    >)
        ensures
            final(endpoint).same_identity(old(endpoint)),
            final(endpoint).current_connections == old(endpoint).current_connections,
            final(endpoint).healthy == (r == Ok::<bool, LoadBalancerError>(true)),
    {
        let probe = self.checker.check_health(endpoint);
        match probe {
            Ok(true) => {
                endpoint.mark_healthy();
                Ok(true)
            },
            Ok(false) => {
                endpoint.mark_unhealthy();
                Ok(false)
            },
            Err(e) => {
                endpoint.mark_unhealthy();
                Err(e)
            },
        }
    }

    /// One pass of the health loop: probe every endpoint in order. Only the
    /// health flags change; identity and connection counts stay.
    pub fn run_health_pass(&self, endpoints: &mut Vec<Endpoint>)
        ensures
            final(endpoints)@.len() == old(endpoints)@.len(),
            forall|i: int|
                0 <= i < final(endpoints)@.len() ==> (#[trigger] final(endpoints)@[i]).same_identity(
                    &old(endpoints)@[i],
                ) && final(endpoints)@[i].current_connections
                    == old(endpoints)@[i].current_connections,
    {
        let ghost orig = endpoints@;
        let mut i: usize = 0;
        while i < endpoints.len()
            invariant
                i <= endpoints@.len(),
                endpoints@.len() == orig.len(),
                forall|j: int|
                    0 <= j < orig.len() ==> (#[trigger] endpoints@[j]).same_identity(&orig[j])
                        && endpoints@[j].current_connections == orig[j].current_connections,
            decreases endpoints@.len() - i,
        {
            let _ = self.check_single_endpoint(&mut endpoints[i]);
            i = i + 1;
        }
    }
}

} // verus!
