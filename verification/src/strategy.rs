use vstd::prelude::*;

use crate::endpoint::Endpoint;
use crate::error::LoadBalancerError;
use crate::least_conn::LeastConnections;
use crate::least_conn::is_stable_min;
use crate::random::RandomStrategy;
use crate::round_robin::RoundRobin;
use crate::round_robin::next_counter;
use crate::text::str_eq;

verus! {

broadcast use vstd::string::group_string_axioms;

/// At least one endpoint is healthy.
pub open spec fn has_healthy(s: Seq<Endpoint>) -> bool {
    exists|i: int| 0 <= i < s.len() && s[i].healthy
}

/// The indices of the healthy endpoints, in positional order.
pub open spec fn healthy_indices(s: Seq<Endpoint>) -> Seq<usize>
    decreases s.len(),
{
    if s.len() == 0 {
        Seq::empty()
    } else if s.last().healthy {
        healthy_indices(s.drop_last()).push((s.len() - 1) as usize)
    } else {
        healthy_indices(s.drop_last())
    }
}

/// What `healthy_indices` yields: valid indices of healthy endpoints, and an
/// empty list exactly when no endpoint is healthy.
pub proof fn lemma_healthy_indices(s: Seq<Endpoint>)
    requires
        s.len() <= usize::MAX,
    ensures
        healthy_indices(s).len() <= s.len(),
        forall|j: int|
            0 <= j < healthy_indices(s).len() ==> (#[trigger] healthy_indices(s)[j]) < s.len()
                && s[healthy_indices(s)[j] as int].healthy,
        (healthy_indices(s).len() == 0) <==> !has_healthy(s),
    decreases s.len(),
{
    if s.len() == 0 {
    } else {
        let t = s.drop_last();
        lemma_healthy_indices(t);
        assert(forall|i: int| 0 <= i < t.len() ==> t[i] == s[i]);
        assert forall|j: int|
            0 <= j < healthy_indices(s).len() implies (#[trigger] healthy_indices(s)[j]) < s.len()
            && s[healthy_indices(s)[j] as int].healthy by {
            if s.last().healthy {
                if j < healthy_indices(t).len() {
                    assert(healthy_indices(s)[j] == healthy_indices(t)[j]);
                } else {
                    assert(healthy_indices(s)[j] == (s.len() - 1) as usize);
                    assert(s[s.len() - 1].healthy);
                }
            } else {
                assert(healthy_indices(s)[j] == healthy_indices(t)[j]);
            }
        }
        if has_healthy(s) {
            let i = choose|i: int| 0 <= i < s.len() && s[i].healthy;
            if i < s.len() - 1 {
                assert(t[i].healthy);
                assert(has_healthy(t));
            }
            assert(healthy_indices(s).len() > 0);
        }
        if healthy_indices(s).len() > 0 {
            if s.last().healthy {
                assert(s[s.len() - 1].healthy);
            } else {
                assert(healthy_indices(t).len() > 0);
                let j0 = healthy_indices(t)[0];
                assert(t[j0 as int].healthy);
            }
            assert(has_healthy(s));
        }
    }
}

/// Build the list of healthy indices, front to back.
pub fn healthy_index_list(endpoints: &Vec<Endpoint>) -> (r: Vec<usize>)
    ensures
        r@ == healthy_indices(endpoints@),
{
    let mut out: Vec<usize> = Vec::new();
    let mut i: usize = 0;
    while i < endpoints.len()
        invariant
            i <= endpoints@.len(),
            out@ == healthy_indices(endpoints@.take(i as int)),
        decreases endpoints@.len() - i,
    {
        proof {
            assert(endpoints@.take(i + 1).drop_last() =~= endpoints@.take(i as int));
            assert(endpoints@.take(i + 1)[i as int] == endpoints@[i as int]);
        }
        if endpoints[i].is_healthy() {
            out.push(i);
        }
        i = i + 1;
    }
    proof {
        assert(endpoints@.take(endpoints@.len() as int) =~= endpoints@);
    }
    out
}

/// A selection policy: pick the index of a healthy endpoint, and fail with
/// `NoHealthyEndpoints` exactly when no endpoint is healthy.
pub trait LoadBalancingStrategy: Sized {
    fn next_endpoint(&mut self, endpoints: &Vec<Endpoint>) -> (r: Result<
        usize,
        LoadBalancerError,
    >)
        ensures
            match r {
                Ok(i) => i < endpoints@.len() && endpoints@[i as int].healthy,
                Err(e) => !has_healthy(endpoints@) && e == LoadBalancerError::NoHealthyEndpoints,
            },
    ;
}

/// The three selection policies as one closed sum, switched at configuration
/// time.
#[derive(Clone, Copy)]
pub enum Strategy {
    RoundRobin(RoundRobin),
    LeastConnections(LeastConnections),
    Random(RandomStrategy),
}

/// What one pick does: the common guarantee (a healthy index, or
/// `NoHealthyEndpoints` exactly when none is healthy), sharpened per policy —
/// round-robin picks by its counter and steps it, least-connections picks the
/// stable minimum, and only round-robin carries state.
pub open spec fn strategy_post(
    pre: Strategy,
    post: Strategy,
    s: Seq<Endpoint>,
    r: Result<usize, LoadBalancerError>,
) -> bool {
    &&& match r {
        Ok(i) => i < s.len() && s[i as int].healthy,
        Err(e) => !has_healthy(s) && e == LoadBalancerError::NoHealthyEndpoints,
    }
    &&& match pre {
        Strategy::RoundRobin(rr) => {
            let hs = healthy_indices(s);
            if hs.len() > 0 {
                &&& r == Ok::<usize, LoadBalancerError>(hs[rr.current as int % hs.len() as int])
                &&& post == Strategy::RoundRobin(RoundRobin { current: next_counter(rr.current) })
            } else {
                post == pre
            }
        },
        Strategy::LeastConnections(_) => {
            &&& post == pre
            &&& match r {
                Ok(i) => is_stable_min(s, i as int),
                Err(_) => true,
            }
        },
        Strategy::Random(_) => post == pre,
    }
}

impl Strategy {
    /// Pick the index of a healthy endpoint with the chosen policy.
    pub fn next_endpoint(&mut self, endpoints: &Vec<Endpoint>) -> (r: Result<
        usize,
        LoadBalancerError,
    >)
        ensures
            strategy_post(*old(self), *final(self), endpoints@, r),
    {
        let total = endpoints.len();
        proof {
            assert(endpoints@.len() == total);
            lemma_healthy_indices(endpoints@);
        }
        match *self {
            Strategy::RoundRobin(rr0) => {
                let mut rr = rr0;
                let r = rr.next_endpoint(endpoints);
                *self = Strategy::RoundRobin(rr);
                r
            },
            Strategy::LeastConnections(lc0) => {
                let mut lc = lc0;
                let r = lc.next_endpoint(endpoints);
                r
            },
            Strategy::Random(rs0) => {
                let mut rs = rs0;
                let r = rs.next_endpoint(endpoints);
                r
            },
        }
    }
}

/// Turn the configured strategy name into a policy; an unknown name falls
/// back to round-robin.
pub fn create_strategy(name: &str) -> (s: Strategy)
    ensures
        name@ == "round_robin"@ ==> (s == Strategy::RoundRobin(RoundRobin { current: 0 })),
        name@ == "least_connections"@ ==> s == Strategy::LeastConnections(LeastConnections),
        name@ == "random"@ ==> s == Strategy::Random(RandomStrategy),
        name@ != "round_robin"@ && name@ != "least_connections"@ && name@ != "random"@ ==> (s
            == Strategy::RoundRobin(RoundRobin { current: 0 })),
{
    proof {
        reveal_strlit("round_robin");
        reveal_strlit("least_connections");
        reveal_strlit("random");
        assert("round_robin"@.len() == 11);
        assert("least_connections"@.len() == 17);
        assert("random"@.len() == 6);
    }
    if str_eq(name, "least_connections") {
        Strategy::LeastConnections(LeastConnections::new())
    } else if str_eq(name, "random") {
        Strategy::Random(RandomStrategy::new())
    } else {
        Strategy::RoundRobin(RoundRobin::new())
    }
}

} // verus!
