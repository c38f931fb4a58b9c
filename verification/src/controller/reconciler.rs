//! The reconcile entry point's decisions: which flow a HelmRelease needs and
//! when to look at it again.
use vstd::prelude::*;

use super::crd::{HelmRelease, RolloutPhase};
use super::traits::ClientError;
use crate::time::Duration;
use vstd::arithmetic::power2::{lemma2_to64, lemma_pow2_strictly_increases, lemma_pow2_unfold, pow2};

verus! {

/// Errors produced during reconciliation.
#[derive(Debug)]
pub enum ReconcileError {
    Client(ClientError),
    MissingObjectKey(&'static str),
    InvalidState(String),
}

impl ReconcileError {
    /// The human-readable description of an error.
    pub open spec fn spec_describe(&self) -> Seq<char> {
        match self {
            ReconcileError::Client(e) => "client error: "@ + e.spec_describe(),
            ReconcileError::MissingObjectKey(k) => "missing object key: "@ + k@,
            ReconcileError::InvalidState(m) => "invalid resource state: "@ + m@,
        }
    }

    /// Describe the error for humans.
    pub fn describe(&self) -> (r: String)
        ensures
            r@ == self.spec_describe(),
    {
        match self {
            ReconcileError::Client(e) => {
                let mut r = "client error: ".to_owned();
                let d = e.describe();
                r.append(d.as_str());
                r
            },
            ReconcileError::MissingObjectKey(k) => {
                let mut r = "missing object key: ".to_owned();
                r.append(k);
                r
            },
            ReconcileError::InvalidState(m) => {
                let mut r = "invalid resource state: ".to_owned();
                r.append(m.as_str());
                r
            },
        }
    }
}

/// The flow a reconcile pass dispatches to.
#[derive(Debug, Clone, Copy, PartialEq, Eq, Structural)]
pub enum ReconcileStage {
    /// No active slot: an initial deployment is required.
    InitialDeployment,
    /// A rollout is recorded: continue it.
    ContinueRollout { phase: RolloutPhase },
    /// Stable state: check for drift.
    CheckDrift,
}

/// Decide the flow of a reconcile pass: the resource must have a name and a
/// namespace; then no active slot means an initial deployment, a recorded
/// rollout is continued, and otherwise drift is checked.
pub fn plan_reconcile(hr: &HelmRelease) -> (r: Result<ReconcileStage, ReconcileError>)
    ensures
        hr@.metadata.name is None ==> (r matches Err(ReconcileError::MissingObjectKey(k)) && k@ == "metadata.name"@),
        hr@.metadata.name is Some && hr@.metadata.namespace is None ==> (r matches Err(
            ReconcileError::MissingObjectKey(k),
        ) && k@ == "metadata.namespace"@),
        hr@.metadata.name is Some && hr@.metadata.namespace is Some ==> r == Ok::<
            ReconcileStage,
            ReconcileError,
        >(
            match hr@.status {
                Some(s) => match s.active_slot {
                    None => ReconcileStage::InitialDeployment,
                    Some(_) => match s.rollout {
                        Some(ro) => ReconcileStage::ContinueRollout { phase: ro.phase },
                        None => ReconcileStage::CheckDrift,
                    },
                },
                None => ReconcileStage::InitialDeployment,
            },
        ),
{
    if hr.metadata.name.is_none() {
        return Err(ReconcileError::MissingObjectKey("metadata.name"));
    }
    if hr.metadata.namespace.is_none() {
        return Err(ReconcileError::MissingObjectKey("metadata.namespace"));
    }
    match &hr.status {
        Some(s) => match s.active_slot {
            None => Ok(ReconcileStage::InitialDeployment),
            Some(_) => match &s.rollout {
                Some(ro) => Ok(ReconcileStage::ContinueRollout { phase: ro.phase }),
                None => Ok(ReconcileStage::CheckDrift),
            },
        },
        None => Ok(ReconcileStage::InitialDeployment),
    }
}

/// How long to wait before reconciling a resource again: 60 seconds.
pub fn requeue_interval() -> (d: Duration)
    ensures
        d.spec_secs() == 60 && d.spec_subsec_nanos() == 0,
{
    Duration::from_secs(60)
}

/// The seconds to wait after the `failures`-th consecutive reconcile error:
/// exponential backoff from 5 seconds, doubling with each further failure and
/// capped at 5 minutes. A count of zero is taken as the first failure.
pub open spec fn backoff_secs(failures: nat) -> nat {
    let n: nat = if failures == 0 {
        1
    } else {
        failures
    };
    let secs = 5 * pow2((n - 1) as nat);
    if secs < 300 {
        secs
    } else {
        300
    }
}

/// How long to wait before retrying a resource whose reconciliation has now
/// failed `failures` times in a row: 5s, 10s, 20s, ... up to 5 minutes.
pub fn error_requeue_interval(failures: u32) -> (d: Duration)
    ensures
        d.spec_secs() == backoff_secs(failures as nat) && d.spec_subsec_nanos() == 0,
{
    let n: u32 = if failures == 0 {
        1
    } else {
        failures
    };
    let mut secs: u64 = 5;
    let mut i: u32 = 1;
    proof {
        lemma2_to64();
    }
    while i < n && secs < 300
        invariant
            1 <= i <= n,
            n == (if failures == 0 {
                1
            } else {
                failures
            }),
            secs == 5 * pow2((i - 1) as nat),
            secs < 600,
        decreases n - i,
    {
        proof {
            lemma_pow2_unfold(i as nat);
        }
        secs = secs * 2;
        i = i + 1;
    }
    proof {
        if i < n {
            lemma_pow2_strictly_increases((i - 1) as nat, (n - 1) as nat);
        }
    }
    if secs > 300 {
        secs = 300;
    }
    Duration::from_secs(secs)
}

} // verus!
