use vstd::prelude::*;

verus! {

/// Every failure the load balancer reports, with the human-readable payload
/// kept as a plain string.
#[derive(Debug, Clone, PartialEq, Eq)]
pub enum LoadBalancerError {
    NoHealthyEndpoints,
    ConfigError(String),
    HttpError(String),
    IoError(String),
    HealthCheckError(String),
    SerializationError(String),
}

impl LoadBalancerError {
    /// The message a client sees for this error.
    pub open spec fn spec_message(&self) -> Seq<char> {
        match self {
            LoadBalancerError::NoHealthyEndpoints => "No healthy endpoints available"@,
            LoadBalancerError::ConfigError(m) => "Configuration error: "@ + m@,
            LoadBalancerError::HttpError(m) => "HTTP error: "@ + m@,
            LoadBalancerError::IoError(m) => "IO error: "@ + m@,
            LoadBalancerError::HealthCheckError(m) => "Health check failed: "@ + m@,
            LoadBalancerError::SerializationError(m) => "Serialization error: "@ + m@,
        }
    }

    pub fn message(&self) -> (r: String)
        ensures
            r@ == self.spec_message(),
    {
        match self {
            LoadBalancerError::NoHealthyEndpoints => {
                String::from_str("No healthy endpoints available")
            },
            LoadBalancerError::ConfigError(m) => {
                String::from_str("Configuration error: ").concat(m.as_str())
            },
            LoadBalancerError::HttpError(m) => {
                String::from_str("HTTP error: ").concat(m.as_str())
            },
            LoadBalancerError::IoError(m) => {
                String::from_str("IO error: ").concat(m.as_str())
            },
            LoadBalancerError::HealthCheckError(m) => {
                String::from_str("Health check failed: ").concat(m.as_str())
            },
            LoadBalancerError::SerializationError(m) => {
                String::from_str("Serialization error: ").concat(m.as_str())
            },
        }
    }
}

} // verus!
