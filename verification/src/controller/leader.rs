//! Leader election: configuration and the decisions taken on lease outcomes.
use vstd::prelude::*;

use crate::time::Duration;

verus! {

/// Outcome of a lease acquisition attempt.
#[derive(Debug, Clone, PartialEq, Eq)]
pub enum LeaseOutcome {
    /// This replica now holds the lease.
    Acquired,
    /// Another replica holds the lease. Contains the current holder identity.
    HeldBy(String),
}

/// Errors from lease operations.
#[derive(Debug)]
pub enum LeaseError {
    Kube(String),
    Conflict(String),
}

impl LeaseError {
    /// The human-readable description of the error.
    pub open spec fn spec_describe(&self) -> Seq<char> {
        match self {
            LeaseError::Kube(m) => "kubernetes API error: "@ + m@,
            LeaseError::Conflict(m) => "lease conflict: "@ + m@,
        }
    }

    /// Describe the error for humans.
    pub fn describe(&self) -> (r: String)
        ensures
            r@ == self.spec_describe(),
    {
        let (prefix, m) = match self {
            LeaseError::Kube(m) => ("kubernetes API error: ", m),
            LeaseError::Conflict(m) => ("lease conflict: ", m),
        };
        let mut r = prefix.to_owned();
        r.append(m.as_str());
        r
    }
}

/// Current state of a replica with respect to leader election.
#[derive(Debug, Clone, PartialEq, Eq)]
pub enum LeaderState {
    /// This replica is the leader and should run reconciliation.
    Leader,
    /// This replica is a standby and should not reconcile.
    Standby { holder: String },
}

/// Configuration for leader election.
#[derive(Debug, Clone)]
pub struct LeaderElectionConfig {
    /// Name of the Lease resource in the coordination API.
    pub lease_name: String,
    /// Namespace where the Lease lives.
    pub namespace: String,
    /// Identity of this replica (typically pod name).
    pub identity: String,
    /// How long the lease is valid before it expires.
    pub lease_duration: Duration,
    /// How often the leader should renew the lease.
    pub renew_interval: Duration,
    /// How often a standby should retry acquiring the lease.
    pub retry_interval: Duration,
}

impl LeaderElectionConfig {
    /// A configuration with a 15 s lease, renewed every 10 s, retried every 5 s.
    pub fn new(lease_name: &str, namespace: &str, identity: &str) -> (c: Self)
        ensures
            c.lease_name@ == lease_name@,
            c.namespace@ == namespace@,
            c.identity@ == identity@,
            c.lease_duration.spec_secs() == 15 && c.lease_duration.spec_subsec_nanos() == 0,
            c.renew_interval.spec_secs() == 10 && c.renew_interval.spec_subsec_nanos() == 0,
            c.retry_interval.spec_secs() == 5 && c.retry_interval.spec_subsec_nanos() == 0,
    {
        LeaderElectionConfig {
            lease_name: lease_name.to_owned(),
            namespace: namespace.to_owned(),
            identity: identity.to_owned(),
            lease_duration: Duration::from_secs(15),
            renew_interval: Duration::from_secs(10),
            retry_interval: Duration::from_secs(5),
        }
    }
}

/// The state a replica is in after a lease acquisition attempt: leader when
/// it acquired the lease, standby naming the holder otherwise.
pub fn leader_state_after(outcome: LeaseOutcome) -> (r: LeaderState)
    ensures
        match outcome {
            LeaseOutcome::Acquired => r == LeaderState::Leader,
            LeaseOutcome::HeldBy(holder) => r == LeaderState::Standby { holder },
        },
{
    match outcome {
        LeaseOutcome::Acquired => LeaderState::Leader,
        LeaseOutcome::HeldBy(holder) => LeaderState::Standby { holder },
    }
}

/// Decide what a replica should do based on its current state.
pub fn should_reconcile(state: &LeaderState) -> (r: bool)
    ensures
        r == (*state is Leader),
{
    match state {
        LeaderState::Leader => true,
        LeaderState::Standby { .. } => false,
    }
}

} // verus!
