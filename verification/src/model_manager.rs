use vstd::prelude::*;

use crate::endpoint::Endpoint;
use crate::error::LoadBalancerError;
use crate::strategy::has_healthy;
use crate::text::str_eq;

verus! {

/// One entry of the model catalogue a backend returns from its tags route.
pub struct ModelEntry {
    pub name: String,
    pub model: String,
}

/// The queried name matches an entry when it equals the entry's `name` field
/// or its `model` field.
pub open spec fn entry_matches(e: ModelEntry, name: Seq<char>) -> bool {
    e.name@ == name || e.model@ == name
}

/// Some entry of the catalogue matches the queried name.
pub open spec fn any_model_matches(models: Seq<ModelEntry>, name: Seq<char>) -> bool {
    exists|i: int| 0 <= i < models.len() && entry_matches(models[i], name)
}

/// Decide model presence from the catalogue a backend returned.
pub fn model_present_in(models: &Vec<ModelEntry>, name: &str) -> (r: bool)
    ensures
        r == any_model_matches(models@, name@),
{
    let mut i: usize = 0;
    while i < models.len()
        invariant
            i <= models@.len(),
            forall|j: int| 0 <= j < i ==> !entry_matches(models@[j], name@),
        decreases models@.len() - i,
    {
        if str_eq(models[i].name.as_str(), name) || str_eq(models[i].model.as_str(), name) {
            return true;
        }
        i = i + 1;
    }
    false
}

/// The route asked for the model catalogue: the base URL with the tags path.
pub fn build_tags_url(base: &str) -> (r: String)
    ensures
        r@ == base@ + "/api/tags"@,
{
    let mut url = String::from_str(base);
    url.append("/api/tags");
    url
}

/// The route asked to install a model: the base URL with the pull path.
pub fn build_pull_url(base: &str) -> (r: String)
    ensures
        r@ == base@ + "/api/pull"@,
{
    let mut url = String::from_str(base);
    url.append("/api/pull");
    url
}

/// The status is in the success class.
pub open spec fn is_success_status(status: u16) -> bool {
    200 <= status < 300
}

/// Judge the backend's answer to a pull: any non-success status is a
/// configuration error carrying the response body text.
pub fn classify_pull_response(status: u16, body: String) -> (r: Result<(), LoadBalancerError>)
    ensures
        r is Ok <==> is_success_status(status),
        !is_success_status(status) ==> (r matches Err(LoadBalancerError::ConfigError(m)) && m@
            == "Failed to pull model: "@ + body@),
{
    if 200 <= status && status < 300 {
        Ok(())
    } else {
        let mut msg = String::from_str("Failed to pull model: ");
        msg.append(body.as_str());
        Err(LoadBalancerError::ConfigError(msg))
    }
}

/// Fold the outcome of ensuring a model into the endpoint: healthy when the
/// model was already present or the pull succeeded, unhealthy and failing on
/// any error. The pull outcome is there exactly when the probe said the model
/// was absent.
pub fn apply_ensure_model_outcome(
    endpoint: &mut Endpoint,
    present: Result<bool, LoadBalancerError>,
    pulled: Option<Result<(), LoadBalancerError>>,
) -> (r: Result<(), LoadBalancerError>)
    requires
        pulled is Some <==> present == Ok::<bool, LoadBalancerError>(false),
    ensures
        final(endpoint).same_identity(old(endpoint)),
        final(endpoint).current_connections == old(endpoint).current_connections,
        final(endpoint).healthy == (r is Ok),
        present matches Err(e) ==> r == Err::<(), LoadBalancerError>(e),
        present == Ok::<bool, LoadBalancerError>(true) ==> r is Ok,
        pulled matches Some(p) ==> r == p,
    {
    match present {
        Ok(true) => {
            endpoint.mark_healthy();
            Ok(())
        },
        Ok(false) => {
            match pulled {
                Some(p) => {
                    if p.is_ok() {
                        endpoint.mark_healthy();
                    } else {
                        endpoint.mark_unhealthy();
                    }
                    p
                },
                None => {
                    proof {
                        assert(false);
                    }
                    Ok(())
                },
            }
        },
        Err(e) => {
            endpoint.mark_unhealthy();
            Err(e)
        },
    }
}

/// Judge the pool after bootstrap: starting the system is only allowed when
/// at least one endpoint came out healthy.
pub fn bootstrap_verdict(endpoints: &Vec<Endpoint>) -> (r: Result<(), LoadBalancerError>)
    ensures
        r is Ok <==> has_healthy(endpoints@),
        !has_healthy(endpoints@) ==> (r matches Err(LoadBalancerError::ConfigError(m)) && m@
            == "No healthy endpoints after initialization"@),
{
    let mut i: usize = 0;
    while i < endpoints.len()
        invariant
            i <= endpoints@.len(),
            forall|j: int| 0 <= j < i ==> !(#[trigger] endpoints@[j]).healthy,
        decreases endpoints@.len() - i,
    {
        if endpoints[i].is_healthy() {
            return Ok(());
        }
        i = i + 1;
    }
    Err(LoadBalancerError::ConfigError(String::from_str("No healthy endpoints after initialization")))
}

} // verus!
