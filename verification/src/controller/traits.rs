//! Values exchanged with the Helm sidecar and the canary analysis backend.
use vstd::prelude::*;

use super::crd::BackendDecision;

verus! {

/// Errors returned by effectful operations.
#[derive(Debug, Clone, PartialEq, Eq)]
pub enum ClientError {
    Helm(String),
    Backend(String),
    Kube(String),
    Timeout(String),
    Other(String),
}

impl ClientError {
    /// The human-readable description of an error.
    pub open spec fn spec_describe(&self) -> Seq<char> {
        match self {
            ClientError::Helm(m) => "helm operation failed: "@ + m@,
            ClientError::Backend(m) => "backend request failed: "@ + m@,
            ClientError::Kube(m) => "kubernetes API error: "@ + m@,
            ClientError::Timeout(m) => "timeout waiting for "@ + m@,
            ClientError::Other(m) => m@,
        }
    }

    /// Describe the error for humans.
    pub fn describe(&self) -> (r: String)
        ensures
            r@ == self.spec_describe(),
    {
        let (prefix, m) = match self {
            ClientError::Helm(m) => ("helm operation failed: ", m),
            ClientError::Backend(m) => ("backend request failed: ", m),
            ClientError::Kube(m) => ("kubernetes API error: ", m),
            ClientError::Timeout(m) => ("timeout waiting for ", m),
            ClientError::Other(m) => ("", m),
        };
        let mut r = prefix.to_owned();
        r.append(m.as_str());
        proof {
            reveal_strlit("");
        }
        r
    }
}

/// Outcome of a Helm install or upgrade.
#[derive(Debug, Clone, PartialEq, Eq)]
pub struct HelmReleaseInfo {
    pub release_name: String,
    pub version: String,
    pub status: String,
}

/// Parameters for a backend poll request.
#[derive(Debug, Clone)]
pub struct PollRequest<'a> {
    pub endpoint: &'a str,
    pub profile_id: Option<&'a str>,
    pub api_key: &'a str,
    pub release_name: &'a str,
    pub namespace: &'a str,
    pub from_version: Option<&'a str>,
    pub to_version: &'a str,
}

/// Decision returned by the MultiTool backend for a canary rollout.
#[derive(Debug, Clone, PartialEq, Eq)]
pub struct BackendPollResponse {
    pub decision: BackendDecision,
    pub message: Option<String>,
}

} // verus!
