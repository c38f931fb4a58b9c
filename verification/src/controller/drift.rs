//! Drift detection: comparing the desired version against the status.
use vstd::prelude::*;

use super::crd::{opt_view, HelmReleaseSpec, HelmReleaseStatus, HelmReleaseStatusView, RolloutPhase};
use crate::text::str_eq;

verus! {

/// Outcome of comparing the desired spec against the observed status.
#[derive(Debug, Clone, PartialEq, Eq)]
pub enum DriftOutcome {
    /// No deployment exists yet: initial install required.
    InitialDeployment { version: String },
    /// The desired version differs from the active version: new rollout needed.
    VersionDrift { from_version: String, to_version: String },
    /// A rollout is already in progress: continue reconciling it.
    RolloutInProgress { phase: RolloutPhase },
    /// The desired state matches the active state: nothing to do.
    InSync,
}

/// Model of a [`DriftOutcome`].
pub enum DriftOutcomeView {
    InitialDeployment { version: Seq<char> },
    VersionDrift { from_version: Seq<char>, to_version: Seq<char> },
    RolloutInProgress { phase: RolloutPhase },
    InSync,
}

impl View for DriftOutcome {
    type V = DriftOutcomeView;

    open spec fn view(&self) -> DriftOutcomeView {
        match self {
            DriftOutcome::InitialDeployment { version } => DriftOutcomeView::InitialDeployment { version: version@ },
            DriftOutcome::VersionDrift { from_version, to_version } => DriftOutcomeView::VersionDrift {
                from_version: from_version@,
                to_version: to_version@,
            },
            DriftOutcome::RolloutInProgress { phase } => DriftOutcomeView::RolloutInProgress { phase: *phase },
            DriftOutcome::InSync => DriftOutcomeView::InSync,
        }
    }
}

/// What the reconciler should do for a desired version and a status model.
pub open spec fn spec_detect_drift(target: Option<Seq<char>>, status: Option<HelmReleaseStatusView>) -> DriftOutcomeView {
    match target {
        None => DriftOutcomeView::InSync,
        Some(desired) => match status {
            None => DriftOutcomeView::InitialDeployment { version: desired },
            Some(s) => if s.rollout matches Some(r) && r.phase == RolloutPhase::InProgress {
                DriftOutcomeView::RolloutInProgress { phase: RolloutPhase::InProgress }
            } else if s.active_slot is None {
                DriftOutcomeView::InitialDeployment { version: desired }
            } else {
                match s.active_version {
                    Some(active) => if active == desired {
                        DriftOutcomeView::InSync
                    } else {
                        DriftOutcomeView::VersionDrift { from_version: active, to_version: desired }
                    },
                    None => DriftOutcomeView::InitialDeployment { version: desired },
                }
            },
        },
    }
}

/// Determine what action (if any) the reconciler should take by comparing
/// the spec's desired version against the status.
pub fn detect_drift(spec: &HelmReleaseSpec, status: Option<&HelmReleaseStatus>) -> (r: DriftOutcome)
    ensures
        r@ == spec_detect_drift(
            opt_view(spec.target_version),
            match status {
                Some(s) => Some(s@),
                None => None,
            },
        ),
{
    let desired_version = match &spec.target_version {
        Some(v) => v.as_str(),
        None => {
            return DriftOutcome::InSync;
        },
    };
    let status = match status {
        Some(s) => s,
        None => {
            return DriftOutcome::InitialDeployment { version: desired_version.to_owned() };
        },
    };
    match &status.rollout {
        Some(rollout) => match rollout.phase {
            RolloutPhase::InProgress => {
                return DriftOutcome::RolloutInProgress { phase: RolloutPhase::InProgress };
            },
            RolloutPhase::Promoted | RolloutPhase::RolledBack | RolloutPhase::Errored | RolloutPhase::Cancelled => {},
        },
        None => {},
    }
    if status.active_slot.is_none() {
        return DriftOutcome::InitialDeployment { version: desired_version.to_owned() };
    }
    match &status.active_version {
        Some(active) => if str_eq(active.as_str(), desired_version) {
            DriftOutcome::InSync
        } else {
            DriftOutcome::VersionDrift { from_version: active.clone(), to_version: desired_version.to_owned() }
        },
        None => DriftOutcome::InitialDeployment { version: desired_version.to_owned() },
    }
}

} // verus!
