//! Deployment flows: the initial install and the start of a canary rollout.
use vstd::prelude::*;

use super::conditions::{set_available, status_with_condition};
use super::crd::{
    empty_status_view, HelmRelease, HelmReleaseStatus, HelmReleaseStatusView, RolloutPhase, RolloutStatus,
    RolloutStatusView, Slot, SlotStateView,
};
use super::slots::{
    canary_slot, promote_slot, release_name, set_slot_state, spec_canary_slot, spec_release_name,
    status_with_slot_promoted, status_with_slot_set,
};
use crate::time::Timestamp;

verus! {

/// Steps to execute for an initial deployment (first install).
#[derive(Debug, Clone, PartialEq, Eq)]
pub struct InitialDeployPlan {
    /// Which slot to install into.
    pub slot: Slot,
    /// The Helm release name for the slot.
    pub release_name: String,
    /// Version to install.
    pub version: String,
}

/// Build a plan for the initial deployment of a HelmRelease: `None` exactly
/// when the resource has no name; otherwise the canary slot of `status` and
/// its release name.
pub fn plan_initial_deploy(
    hr: &HelmRelease,
    version: &str,
    status: Option<&HelmReleaseStatus>,
) -> (r: Option<InitialDeployPlan>)
    ensures
        r is Some == hr@.metadata.name is Some,
        r matches Some(p) ==> {
            let slot = spec_canary_slot(
                match status {
                    Some(s) => Some(s@),
                    None => None,
                },
            );
            &&& p.slot == slot
            &&& p.release_name@ == spec_release_name(hr@.metadata.name->0, slot)
            &&& p.version@ == version@
        },
{
    let base_name = match &hr.metadata.name {
        Some(n) => n.as_str(),
        None => {
            return None;
        },
    };
    let slot = canary_slot(status);
    let release_name = release_name(base_name, slot);
    Some(InitialDeployPlan { slot, release_name, version: version.to_owned() })
}

/// The status model after a first install into `slot`: the slot holds the
/// release and is active, a Promoted rollout is recorded, and Available is
/// set.
pub open spec fn spec_status_after_initial_deploy(
    slot: Slot,
    release_name: Seq<char>,
    version: Seq<char>,
    generation: Option<i64>,
    now: Timestamp,
) -> HelmReleaseStatusView {
    let s1 = status_with_slot_promoted(
        status_with_slot_set(empty_status_view(), slot, SlotStateView { version, release_name }),
        slot,
    );
    let rollout = RolloutStatusView {
        phase: RolloutPhase::Promoted,
        from_version: None,
        to_version: version,
        baseline_slot: None,
        canary_slot: Some(slot),
        canary_weight: Some(100),
        last_backend_poll: None,
        backend_decision: None,
        started_at: Some(now),
        completed_at: Some(now),
        message: Some("Initial deployment complete"@),
    };
    status_with_condition(
        HelmReleaseStatusView { rollout: Some(rollout), ..s1 },
        "Available"@,
        "True"@,
        "InitialDeployComplete"@,
        "Version "@ + version + " deployed"@,
        generation,
        now,
    )
}

/// Produce the HelmReleaseStatus after a successful initial deployment.
pub fn status_after_initial_deploy(plan: &InitialDeployPlan, generation: Option<i64>, now: Timestamp) -> (r:
    HelmReleaseStatus)
    ensures
        r@ == spec_status_after_initial_deploy(plan.slot, plan.release_name@, plan.version@, generation, now),
{
    let mut status = HelmReleaseStatus::default();
    set_slot_state(&mut status, plan.slot, plan.version.clone(), plan.release_name.clone());
    promote_slot(&mut status, plan.slot);
    status.rollout = Some(
        RolloutStatus {
            phase: RolloutPhase::Promoted,
            from_version: None,
            to_version: plan.version.clone(),
            baseline_slot: None,
            canary_slot: Some(plan.slot),
            canary_weight: Some(100),
            last_backend_poll: None,
            backend_decision: None,
            started_at: Some(now),
            completed_at: Some(now),
            message: Some("Initial deployment complete".to_owned()),
        },
    );
    let mut message = "Version ".to_owned();
    message.append(plan.version.as_str());
    message.append(" deployed");
    set_available(&mut status, "InitialDeployComplete", message.as_str(), generation, now);
    status
}

/// Steps to execute when initiating a canary deployment.
#[derive(Debug, Clone, PartialEq, Eq)]
pub struct CanaryDeployPlan {
    /// The slot that currently holds the active (baseline) release.
    pub baseline_slot: Slot,
    /// The slot where the canary (new version) will be installed.
    pub canary_slot: Slot,
    /// Helm release name for the canary slot.
    pub canary_release_name: String,
    /// Version being deployed.
    pub to_version: String,
    /// Version being replaced.
    pub from_version: String,
}

/// Build a plan for initiating a canary deployment: `None` exactly when the
/// resource has no name or the status has no active slot or version; the
/// canary goes into the slot opposite the active one.
pub fn plan_canary_deploy(hr: &HelmRelease, status: &HelmReleaseStatus, to_version: &str) -> (r: Option<
    CanaryDeployPlan,
>)
    ensures
        r is Some == (hr@.metadata.name is Some && status@.active_slot is Some && status@.active_version is Some),
        r matches Some(p) ==> {
            &&& p.baseline_slot == status@.active_slot->0
            &&& p.canary_slot == status@.active_slot->0.spec_other()
            &&& p.canary_release_name@ == spec_release_name(hr@.metadata.name->0, p.canary_slot)
            &&& p.to_version@ == to_version@
            &&& p.from_version@ == status@.active_version->0
        },
{
    let base_name = match &hr.metadata.name {
        Some(n) => n.as_str(),
        None => {
            return None;
        },
    };
    let baseline_slot = match status.active_slot {
        Some(s) => s,
        None => {
            return None;
        },
    };
    let canary_slot = baseline_slot.other();
    let from_version = match &status.active_version {
        Some(v) => v.clone(),
        None => {
            return None;
        },
    };
    Some(
        CanaryDeployPlan {
            baseline_slot,
            canary_slot,
            canary_release_name: release_name(base_name, canary_slot),
            to_version: to_version.to_owned(),
            from_version,
        },
    )
}

/// Produce the rollout status to write when a canary deployment begins.
pub fn rollout_status_for_canary_start(plan: &CanaryDeployPlan, now: Timestamp) -> (r: RolloutStatus)
    ensures
        r@ == (RolloutStatusView {
            phase: RolloutPhase::InProgress,
            from_version: Some(plan.from_version@),
            to_version: plan.to_version@,
            baseline_slot: Some(plan.baseline_slot),
            canary_slot: Some(plan.canary_slot),
            canary_weight: Some(0),
            last_backend_poll: None,
            backend_decision: None,
            started_at: Some(now),
            completed_at: None,
            message: Some("Canary deployment started: "@ + plan.from_version@ + " -> "@ + plan.to_version@),
        }),
{
    let mut message = "Canary deployment started: ".to_owned();
    message.append(plan.from_version.as_str());
    message.append(" -> ");
    message.append(plan.to_version.as_str());
    RolloutStatus {
        phase: RolloutPhase::InProgress,
        from_version: Some(plan.from_version.clone()),
        to_version: plan.to_version.clone(),
        baseline_slot: Some(plan.baseline_slot),
        canary_slot: Some(plan.canary_slot),
        canary_weight: Some(0),
        last_backend_poll: None,
        backend_decision: None,
        started_at: Some(now),
        completed_at: None,
        message: Some(message),
    }
}

} // verus!
