use vstd::prelude::*;

use crate::endpoint::Endpoint;
use crate::error::LoadBalancerError;
use crate::text::str_eq;

verus! {

/// The largest inbound request body the proxy forwards, in bytes.
pub const MAX_BODY_BYTES: usize = 32 * 1024 * 1024;

/// The upstream URL of an inbound request: the endpoint's base URL, the
/// request path, and the query string if there is one.
pub fn build_forward_url(base: &str, path: &str, query: Option<&str>) -> (r: String)
    ensures
        r@ == base@ + path@ + (match query {
            Some(q) => "?"@ + q@,
            None => Seq::<char>::empty(),
        }),
{
    let mut url = String::from_str(base);
    url.append(path);
    match query {
        Some(q) => {
            url.append("?");
            url.append(q);
            proof {
                assert(url@ =~= base@ + path@ + ("?"@ + q@));
            }
        },
        None => {
            proof {
                assert(url@ =~= base@ + path@ + Seq::<char>::empty());
            }
        },
    }
    url
}

/// The name is `Host`, in any mix of upper and lower case.
pub open spec fn is_host_header_name(s: Seq<char>) -> bool {
    &&& s.len() == 4
    &&& (s[0] == 'h' || s[0] == 'H')
    &&& (s[1] == 'o' || s[1] == 'O')
    &&& (s[2] == 's' || s[2] == 'S')
    &&& (s[3] == 't' || s[3] == 'T')
}

/// Every inbound header is copied upstream except `Host`, whatever its case.
pub fn should_forward_header(name: &str) -> (r: bool)
    ensures
        r == !is_host_header_name(name@),
{
    let n = name.unicode_len();
    if n != 4 {
        return true;
    }
    let c0 = name.get_char(0);
    let c1 = name.get_char(1);
    let c2 = name.get_char(2);
    let c3 = name.get_char(3);
    !((c0 == 'h' || c0 == 'H') && (c1 == 'o' || c1 == 'O') && (c2 == 's' || c2 == 'S') && (c3
        == 't' || c3 == 'T'))
}

/// Only POST and PUT requests carry their body upstream.
pub fn method_needs_body(method: &str) -> (r: bool)
    ensures
        r == (method@ == "POST"@ || method@ == "PUT"@),
{
    str_eq(method, "POST") || str_eq(method, "PUT")
}

/// `needle` occurs in `hay` starting at position `k`.
pub open spec fn occurs_at(hay: Seq<char>, needle: Seq<char>, k: int) -> bool {
    &&& 0 <= k
    &&& k + needle.len() <= hay.len()
    &&& forall|j: int| 0 <= j < needle.len() ==> hay[k + j] == needle[j]
}

/// `needle` occurs somewhere in `hay`.
pub open spec fn contains_seq(hay: Seq<char>, needle: Seq<char>) -> bool {
    exists|k: int| occurs_at(hay, needle, k)
}

/// Substring search over characters.
pub fn contains_str(hay: &str, needle: &str) -> (r: bool)
    ensures
        r == contains_seq(hay@, needle@),
{
    let n = hay.unicode_len();
    let m = needle.unicode_len();
    if m > n {
        return false;
    }
    let mut k: usize = 0;
    while k <= n - m
        invariant
            m <= n,
            n == hay@.len(),
            m == needle@.len(),
            k <= n - m + 1,
            forall|k2: int| 0 <= k2 < k ==> !occurs_at(hay@, needle@, k2),
        decreases n - m - k + 1,
    {
        let mut j: usize = 0;
        let mut ok = true;
        while ok && j < m
            invariant
                j <= m,
                m <= n,
                k <= n - m,
                n == hay@.len(),
                m == needle@.len(),
                ok ==> forall|j2: int| 0 <= j2 < j ==> hay@[k + j2] == needle@[j2],
                !ok ==> !occurs_at(hay@, needle@, k as int),
            decreases (if ok {
                1int
            } else {
                0int
            }), m - j,
        {
            if hay.get_char(k + j) != needle.get_char(j) {
                ok = false;
            } else {
                j = j + 1;
            }
        }
        if ok {
            proof {
                assert(occurs_at(hay@, needle@, k as int));
            }
            return true;
        }
        k = k + 1;
    }
    proof {
        assert forall|k2: int| !occurs_at(hay@, needle@, k2) by {
            if 0 <= k2 <= n - m {
                assert(k2 < k);
            }
        }
    }
    false
}

/// A response streams when its content type carries the newline-delimited
/// JSON marker.
pub fn is_streaming_content_type(content_type: &str) -> (r: bool)
    ensures
        r == contains_seq(content_type@, "application/x-ndjson"@),
{
    contains_str(content_type, "application/x-ndjson")
}

/// One endpoint's row in the health report.
pub struct EndpointHealth {
    pub url: String,
    pub healthy: bool,
    pub current_connections: u32,
    pub model_available: bool,
}

/// The health report: overall status, one row per endpoint, and the counts
/// behind the verdict.
pub struct HealthResponse {
    pub status: String,
    pub healthy_endpoints: Vec<EndpointHealth>,
    pub total_endpoints: usize,
    pub healthy_count: usize,
}

/// How many rows are ready: healthy and hosting the required model.
pub open spec fn ready_count(entries: Seq<EndpointHealth>) -> nat
    decreases entries.len(),
{
    if entries.len() == 0 {
        0nat
    } else {
        ready_count(entries.drop_last()) + (if entries.last().healthy
            && entries.last().model_available {
            1nat
        } else {
            0nat
        })
    }
}

/// Assemble the health report from the pool and the per-endpoint model
/// probes: one row per endpoint in order, the ready count, and the overall
/// status, `OK` exactly when some endpoint is ready.
pub fn build_health_report(endpoints: &Vec<Endpoint>, model_available: &Vec<bool>) -> (r:
    HealthResponse)
    requires
        endpoints@.len() == model_available@.len(),
    ensures
        r.total_endpoints == endpoints@.len(),
        r.healthy_endpoints@.len() == endpoints@.len(),
        forall|i: int|
            0 <= i < endpoints@.len() ==> {
                let h = #[trigger] r.healthy_endpoints@[i];
                &&& h.url == endpoints@[i].url
                &&& h.healthy == endpoints@[i].healthy
                &&& h.current_connections == endpoints@[i].current_connections
                &&& h.model_available == model_available@[i]
            },
        r.healthy_count == ready_count(r.healthy_endpoints@),
        r.healthy_count > 0 ==> r.status@ == "OK"@,
        r.healthy_count == 0 ==> r.status@ == "UNHEALTHY"@,
{
    let mut rows: Vec<EndpointHealth> = Vec::new();
    let mut count: usize = 0;
    let mut i: usize = 0;
    while i < endpoints.len()
        invariant
            i <= endpoints@.len(),
            endpoints@.len() == model_available@.len(),
            rows@.len() == i,
            forall|j: int|
                0 <= j < i ==> {
                    let h = #[trigger] rows@[j];
                    &&& h.url == endpoints@[j].url
                    &&& h.healthy == endpoints@[j].healthy
                    &&& h.current_connections == endpoints@[j].current_connections
                    &&& h.model_available == model_available@[j]
                },
            count <= i,
            count == ready_count(rows@),
        decreases endpoints@.len() - i,
    {
        let row = EndpointHealth {
            url: endpoints[i].url.clone(),
            healthy: endpoints[i].is_healthy(),
            current_connections: endpoints[i].get_connections(),
            model_available: model_available[i],
        };
        let ready = row.healthy && row.model_available;
        let ghost prev = rows@;
        rows.push(row);
        proof {
            assert(rows@.drop_last() =~= prev);
        }
        if ready {
            count = count + 1;
        }
        i = i + 1;
    }
    let status = if count > 0 {
        String::from_str("OK")
    } else {
        String::from_str("UNHEALTHY")
    };
    HealthResponse {
        status,
        healthy_endpoints: rows,
        total_endpoints: endpoints.len(),
        healthy_count: count,
    }
}

/// The HTTP status of the health report: OK with at least one ready
/// endpoint, service unavailable otherwise.
pub fn health_status_code(healthy_count: usize) -> (c: u16)
    ensures
        c == (if healthy_count > 0 {
            200u16
        } else {
            503u16
        }),
{
    if healthy_count > 0 {
        200
    } else {
        503
    }
}

/// The HTTP status an error maps to: service unavailable when no endpoint is
/// healthy, internal server error for everything else.
pub fn error_status_code(e: &LoadBalancerError) -> (c: u16)
    ensures
        c == (match e {
            LoadBalancerError::NoHealthyEndpoints => 503u16,
            _ => 500u16,
        }),
{
    match e {
        LoadBalancerError::NoHealthyEndpoints => 503,
        _ => 500,
    }
}

} // verus!
