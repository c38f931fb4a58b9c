//! The canary analysis backend: request URL and decision parsing.
use vstd::prelude::*;

use super::crd::BackendDecision;
use super::traits::ClientError;
use crate::text::{str_eq, trim_trailing_slashes, trim_trailing_slashes_of};

verus! {

/// The decision named by a backend's response text, in either capitalisation.
pub open spec fn spec_parse_decision(s: Seq<char>) -> Option<BackendDecision> {
    if s == "observing"@ || s == "Observing"@ {
        Some(BackendDecision::Observing)
    } else if s == "promote"@ || s == "Promote"@ {
        Some(BackendDecision::Promote)
    } else if s == "rollback"@ || s == "Rollback"@ {
        Some(BackendDecision::Rollback)
    } else {
        None
    }
}

/// Parse the decision text of a backend response.
pub fn parse_decision(s: &str) -> (r: Result<BackendDecision, ClientError>)
    ensures
        match spec_parse_decision(s@) {
            Some(d) => r == Ok::<BackendDecision, ClientError>(d),
            None => r matches Err(ClientError::Backend(m)) && m@ == "unknown decision: "@ + s@,
        },
{
    if str_eq(s, "observing") || str_eq(s, "Observing") {
        Ok(BackendDecision::Observing)
    } else if str_eq(s, "promote") || str_eq(s, "Promote") {
        Ok(BackendDecision::Promote)
    } else if str_eq(s, "rollback") || str_eq(s, "Rollback") {
        Ok(BackendDecision::Rollback)
    } else {
        let mut m = "unknown decision: ".to_owned();
        m.append(s);
        Err(ClientError::Backend(m))
    }
}

/// The poll URL of a backend endpoint: the endpoint without trailing slashes
/// followed by `/v1/rollouts/poll`.
pub fn poll_url(endpoint: &str) -> (r: String)
    ensures
        r@ == trim_trailing_slashes(endpoint@) + "/v1/rollouts/poll"@,
{
    let mut r = trim_trailing_slashes_of(endpoint);
    r.append("/v1/rollouts/poll");
    r
}

} // verus!
