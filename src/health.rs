use vstd::prelude::*;
use vstd::string::StringExecFns;

verus! {

/// The answer of a health check, as an HTTP status.
#[derive(Clone, Copy, Debug, PartialEq, Eq, Structural)]
pub enum HealthStatus {
    Healthy,
    Unavailable,
    Undecodable,
}

impl HealthStatus {
    pub open spec fn spec_code(&self) -> u16 {
        match self {
            HealthStatus::Healthy => 200,
            HealthStatus::Unavailable => 503,
            HealthStatus::Undecodable => 500,
        }
    }

    /// The HTTP status code: 200, 503 or 500.
    #[verifier::when_used_as_spec(spec_code)]
    pub fn code(&self) -> (r: u16)
        ensures
            r == self.spec_code(),
    {
        match self {
            HealthStatus::Healthy => 200,
            HealthStatus::Unavailable => 503,
            HealthStatus::Undecodable => 500,
        }
    }
}

/// Status indicators under which the service counts as working.
pub open spec fn indicator_is_healthy(indicator: Seq<char>) -> bool {
    indicator == "none"@ || indicator == "minor"@
}

/// Health from the status page's indicator, or `None` where the page could
/// not be decoded.
pub fn health_from_indicator(indicator: Option<String>) -> (r: HealthStatus)
    ensures
        r == match indicator {
            None => HealthStatus::Undecodable,
            Some(s) => if indicator_is_healthy(s@) {
                HealthStatus::Healthy
            } else {
                HealthStatus::Unavailable
            },
        },
{
    match indicator {
        None => HealthStatus::Undecodable,
        Some(s) => {
            if s.eq(&String::from_str("none")) || s.eq(&String::from_str("minor")) {
                HealthStatus::Healthy
            } else {
                HealthStatus::Unavailable
            }
        },
    }
}

} // verus!
