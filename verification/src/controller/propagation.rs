//! HTTPRoute propagation verification: configuration and evaluation.
use vstd::prelude::*;

use crate::time::Duration;

verus! {

/// Configuration for propagation verification retries.
#[derive(Debug, Clone, Copy, PartialEq, Eq, Structural)]
pub struct PropagationConfig {
    /// Maximum number of attempts to verify propagation.
    pub max_attempts: u32,
    /// Delay between verification attempts.
    pub retry_delay: Duration,
}

impl Default for PropagationConfig {
    fn default() -> (c: Self)
        ensures
            c.max_attempts == 10,
            c.retry_delay.spec_secs() == 2 && c.retry_delay.spec_subsec_nanos() == 0,
    {
        PropagationConfig { max_attempts: 10, retry_delay: Duration::from_secs(2) }
    }
}

/// Outcome of a propagation check.
#[derive(Debug, Clone, Copy, PartialEq, Eq, Structural)]
pub enum PropagationOutcome {
    /// The HTTPRoute has been accepted by the gateway controller.
    Accepted,
    /// The HTTPRoute has not yet been accepted; more retries remain.
    Pending { attempts_remaining: u32 },
    /// The maximum number of attempts was exhausted without acceptance.
    TimedOut,
}

/// Evaluate the propagation state given the current attempt number and
/// whether the route is accepted.
pub fn evaluate_propagation(accepted: bool, attempt: u32, config: &PropagationConfig) -> (r: PropagationOutcome)
    ensures
        r == (if accepted {
            PropagationOutcome::Accepted
        } else if attempt >= config.max_attempts {
            PropagationOutcome::TimedOut
        } else {
            PropagationOutcome::Pending { attempts_remaining: (config.max_attempts - attempt) as u32 }
        }),
{
    if accepted {
        return PropagationOutcome::Accepted;
    }
    if attempt >= config.max_attempts {
        return PropagationOutcome::TimedOut;
    }
    PropagationOutcome::Pending { attempts_remaining: config.max_attempts - attempt }
}

} // verus!
