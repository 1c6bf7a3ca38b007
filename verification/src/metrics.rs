use vstd::prelude::*;

verus! {

/// A counter one past the top of `u64` stays at the top.
pub open spec fn sat_inc(c: u64) -> u64 {
    if c == u64::MAX {
        u64::MAX
    } else {
        (c + 1) as u64
    }
}

/// The metrics sink: a request counter and two gauges, updated on every pick.
pub struct Metrics {
    pub requests_total: u64,
    pub active_connections: u64,
    pub healthy_endpoints: u64,
}

impl Metrics {
    pub fn new() -> (m: Metrics)
        ensures
            m.requests_total == 0,
            m.active_connections == 0,
            m.healthy_endpoints == 0,
    {
        Metrics { requests_total: 0, active_connections: 0, healthy_endpoints: 0 }
    }

    pub fn increment_requests(&mut self)
        ensures
            final(self).requests_total == sat_inc(old(self).requests_total),
            final(self).active_connections == old(self).active_connections,
            final(self).healthy_endpoints == old(self).healthy_endpoints,
    {
        if self.requests_total < u64::MAX {
            self.requests_total = self.requests_total + 1;
        }
    }

    pub fn set_active_connections(&mut self, count: u64)
        ensures
            final(self).active_connections == count,
            final(self).requests_total == old(self).requests_total,
            final(self).healthy_endpoints == old(self).healthy_endpoints,
    {
        self.active_connections = count;
    }

    pub fn set_healthy_endpoints(&mut self, count: u64)
        ensures
            final(self).healthy_endpoints == count,
            final(self).requests_total == old(self).requests_total,
            final(self).active_connections == old(self).active_connections,
    {
        self.healthy_endpoints = count;
    }
}

} // verus!
