use vstd::prelude::*;

verus! {

/// One backend server: an immutable identity (URL and static limits) plus the
/// two fields the rest of the system mutates, a health flag and a live
/// connection counter.
pub struct Endpoint {
    pub url: String,
    pub weight: u32,
    pub max_connections: u32,
    pub healthy: bool,
    pub current_connections: u32,
}

impl Endpoint {
    /// The connection counter never exceeds the endpoint's hard cap.
    pub open spec fn wf(&self) -> bool {
        self.current_connections <= self.max_connections
    }

    /// The immutable part of an endpoint: URL, weight and cap.
    pub open spec fn same_identity(&self, other: &Endpoint) -> bool {
        &&& self.url == other.url
        &&& self.weight == other.weight
        &&& self.max_connections == other.max_connections
    }

    /// A fresh endpoint starts healthy with no live connections.
    pub fn new(url: String, weight: u32, max_connections: u32) -> (e: Endpoint)
        ensures
            e.url == url,
            e.weight == weight,
            e.max_connections == max_connections,
            e.healthy,
            e.current_connections == 0,
            e.wf(),
    {
        Endpoint { url, weight, max_connections, healthy: true, current_connections: 0 }
    }

    pub fn is_healthy(&self) -> (r: bool)
        ensures
            r == self.healthy,
    {
        self.healthy
    }

    pub fn mark_healthy(&mut self)
        ensures
            final(self).healthy,
            final(self).same_identity(old(self)),
            final(self).current_connections == old(self).current_connections,
    {
        self.healthy = true;
    }

    pub fn mark_unhealthy(&mut self)
        ensures
            !final(self).healthy,
            final(self).same_identity(old(self)),
            final(self).current_connections == old(self).current_connections,
    {
        self.healthy = false;
    }

    /// Reserve one connection slot: succeeds, and counts, exactly when the
    /// counter is strictly below the cap; otherwise the counter is unchanged.
    pub fn increment_connections(&mut self) -> (r: bool)
        requires
            old(self).wf(),
        ensures
            final(self).wf(),
            final(self).same_identity(old(self)),
            final(self).healthy == old(self).healthy,
            r == (old(self).current_connections < old(self).max_connections),
            r ==> final(self).current_connections == old(self).current_connections + 1,
            !r ==> final(self).current_connections == old(self).current_connections,
    {
        if self.current_connections < self.max_connections {
            self.current_connections = self.current_connections + 1;
            true
        } else {
            false
        }
    }

    /// Release one connection slot. A release without a prior successful
    /// reservation is a caller error, so an empty counter is ruled out here.
    pub fn decrement_connections(&mut self)
        requires
            old(self).wf(),
            old(self).current_connections > 0,
        ensures
            final(self).wf(),
            final(self).same_identity(old(self)),
            final(self).healthy == old(self).healthy,
            final(self).current_connections == old(self).current_connections - 1,
    {
        self.current_connections = self.current_connections - 1;
    }

    pub fn get_connections(&self) -> (r: u32)
        ensures
            r == self.current_connections,
    {
        self.current_connections
    }
}

/// A completed request leaves the endpoint's connection count exactly where it
/// was: a successful reservation adds one and the matching release takes one
/// away, whatever happens to the health flag in between.
pub proof fn lemma_request_accounting(before: Endpoint, held: Endpoint, after: Endpoint)
    requires
        before.wf(),
        before.current_connections < before.max_connections,
        held.current_connections == before.current_connections + 1,
        after.current_connections == held.current_connections - 1,
    ensures
        after.current_connections == before.current_connections,
{
}

} // verus!
