use vstd::prelude::*;

use crate::endpoint::Endpoint;
use crate::error::LoadBalancerError;
use crate::strategy::LoadBalancingStrategy;
use crate::strategy::has_healthy;

verus! {

/// Least-connections selection: the first healthy endpoint whose live
/// connection count is the minimum over all healthy endpoints.
#[derive(Clone, Copy)]
pub struct LeastConnections;

/// `i` is the stable minimum of the healthy endpoints: healthy, no healthy
/// endpoint has fewer live connections, and every earlier healthy endpoint
/// has strictly more.
pub open spec fn is_stable_min(s: Seq<Endpoint>, i: int) -> bool {
    &&& 0 <= i < s.len()
    &&& s[i].healthy
    &&& forall|j: int|
        0 <= j < s.len() && s[j].healthy ==> s[i].current_connections
            <= #[trigger] s[j].current_connections
    &&& forall|j: int|
        0 <= j < i && s[j].healthy ==> s[i].current_connections
            < #[trigger] s[j].current_connections
}

impl LeastConnections {
    pub fn new() -> (s: LeastConnections)
        ensures
            s == LeastConnections,
    {
        LeastConnections
    }
}

impl LoadBalancingStrategy for LeastConnections {
    fn next_endpoint(&mut self, endpoints: &Vec<Endpoint>) -> (r: Result<
        usize,
        LoadBalancerError,
    >)
        ensures
            match r {
                Ok(i) => is_stable_min(endpoints@, i as int),
                Err(e) => e == LoadBalancerError::NoHealthyEndpoints,
            },
    {
        let mut best: Option<usize> = None;
        let mut i: usize = 0;
        while i < endpoints.len()
            invariant
                i <= endpoints@.len(),
                match best {
                    Some(b) => b < i && is_stable_min(endpoints@.take(i as int), b as int),
                    None => !has_healthy(endpoints@.take(i as int)),
                },
            decreases endpoints@.len() - i,
        {
            proof {
                assert(forall|j: int|
                    0 <= j < i ==> endpoints@.take(i + 1)[j] == endpoints@.take(i as int)[j]);
                assert(endpoints@.take(i + 1)[i as int] == endpoints@[i as int]);
            }
            if endpoints[i].is_healthy() {
                best = match best {
                    None => Some(i),
                    Some(b) => {
                        if endpoints[i].get_connections() < endpoints[b].get_connections() {
                            Some(i)
                        } else {
                            Some(b)
                        }
                    },
                };
            }
            i = i + 1;
        }
        proof {
            assert(endpoints@.take(endpoints@.len() as int) =~= endpoints@);
        }
        match best {
            Some(b) => Ok(b),
            None => Err(LoadBalancerError::NoHealthyEndpoints),
        }
    }
}

} // verus!
