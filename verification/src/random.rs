use vstd::prelude::*;

use crate::endpoint::Endpoint;
use crate::error::LoadBalancerError;
use crate::strategy::LoadBalancingStrategy;
use crate::strategy::healthy_index_list;
use crate::strategy::lemma_healthy_indices;

verus! {

/// Random selection: a uniform per-call draw over the healthy endpoints.
#[derive(Clone, Copy)]
pub struct RandomStrategy;

/// Relies on rand::random_range: a uniform draw from the thread-local
/// generator that lies within the given range, and panics only when the
/// range is empty.
#[verifier::external_body]
fn random_below(n: usize) -> (r: usize)
    requires
        n > 0,
    ensures
        r < n,
{
    rand::random_range(0..n)
}

impl RandomStrategy {
    pub fn new() -> (s: RandomStrategy)
        ensures
            s == RandomStrategy,
    {
        RandomStrategy
    }
}

impl LoadBalancingStrategy for RandomStrategy {
    fn next_endpoint(&mut self, endpoints: &Vec<Endpoint>) -> (r: Result<
        usize,
        LoadBalancerError,
    >)
    {
        let total = endpoints.len();
        let healthy: Vec<usize> = healthy_index_list(endpoints);
        proof {
            assert(endpoints@.len() == total);
            lemma_healthy_indices(endpoints@);
        }
        if healthy.len() == 0 {
            return Err(LoadBalancerError::NoHealthyEndpoints);
        }
        let k = random_below(healthy.len());
        Ok(healthy[k])
    }
}

} // verus!
