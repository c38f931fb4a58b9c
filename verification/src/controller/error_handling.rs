//! Error handling: moving a rollout to the Errored state.
use vstd::prelude::*;

use super::canary::{prior_backend_poll, prior_started_at};
use super::conditions::{clear_canary_in_progress, set_rollout_failed, status_with_condition, status_without_condition};
use super::crd::{
    clone_opt_string, opt_view, HelmReleaseStatus, HelmReleaseStatusView, RolloutPhase, RolloutStatus,
    RolloutStatusView, Slot,
};
use super::history::{prepend_history, spec_summary, summary_of, with_history};
use super::slots::{clear_slot_state, get_slot_state, spec_slot_state, status_with_slot_cleared};
use crate::time::Timestamp;

verus! {

/// Reason for transitioning a rollout to the Errored state.
#[derive(Debug, Clone, PartialEq, Eq, Structural)]
pub enum ErrorReason {
    /// Helm chart pull failed.
    ChartPullFailed,
    /// Helm sidecar is unreachable.
    SidecarUnreachable,
    /// Helm install/upgrade failed.
    HelmInstallFailed,
    /// Kubernetes API error during rollout.
    KubeApiError,
    /// Backend polling failure.
    BackendPollFailed,
    /// Pod readiness timeout.
    PodReadinessTimeout,
    /// Generic error.
    Other,
}

impl ErrorReason {
    /// The machine-readable condition reason of an error reason.
    pub open spec fn spec_condition_reason(self) -> Seq<char> {
        match self {
            ErrorReason::ChartPullFailed => "ChartPullFailed"@,
            ErrorReason::SidecarUnreachable => "SidecarUnreachable"@,
            ErrorReason::HelmInstallFailed => "HelmInstallFailed"@,
            ErrorReason::KubeApiError => "KubeApiError"@,
            ErrorReason::BackendPollFailed => "BackendPollFailed"@,
            ErrorReason::PodReadinessTimeout => "PodReadinessTimeout"@,
            ErrorReason::Other => "Error"@,
        }
    }

    /// Return a machine-readable reason string for conditions.
    pub fn as_condition_reason(&self) -> (r: &'static str)
        ensures
            r@ == self.spec_condition_reason(),
    {
        match self {
            ErrorReason::ChartPullFailed => "ChartPullFailed",
            ErrorReason::SidecarUnreachable => "SidecarUnreachable",
            ErrorReason::HelmInstallFailed => "HelmInstallFailed",
            ErrorReason::KubeApiError => "KubeApiError",
            ErrorReason::BackendPollFailed => "BackendPollFailed",
            ErrorReason::PodReadinessTimeout => "PodReadinessTimeout",
            ErrorReason::Other => "Error",
        }
    }
}

/// Plan for transitioning a rollout to the Errored state.
#[derive(Debug, PartialEq, Eq)]
pub struct ErrorPlan {
    /// The reason for the error.
    pub reason: ErrorReason,
    /// Human-readable error message.
    pub message: String,
    /// The baseline slot to restore traffic to (if any).
    pub baseline_slot: Option<Slot>,
    /// The canary slot to clean up (if any).
    pub canary_slot: Option<Slot>,
    /// Release name of the canary to uninstall (if any).
    pub canary_release_name: Option<String>,
}

/// Model of an [`ErrorPlan`].
pub struct ErrorPlanView {
    pub reason: ErrorReason,
    pub message: Seq<char>,
    pub baseline_slot: Option<Slot>,
    pub canary_slot: Option<Slot>,
    pub canary_release_name: Option<Seq<char>>,
}

impl View for ErrorPlan {
    type V = ErrorPlanView;

    open spec fn view(&self) -> ErrorPlanView {
        ErrorPlanView {
            reason: self.reason,
            message: self.message@,
            baseline_slot: self.baseline_slot,
            canary_slot: self.canary_slot,
            canary_release_name: opt_view(self.canary_release_name),
        }
    }
}

/// The error plan: with a rollout, its slots and the release recorded for
/// its canary slot; without one, the active slot as baseline and nothing to
/// clean up.
pub open spec fn spec_plan_error(
    s: HelmReleaseStatusView,
    rollout: Option<RolloutStatusView>,
    reason: ErrorReason,
    message: Seq<char>,
) -> ErrorPlanView {
    match rollout {
        Some(r) => ErrorPlanView {
            reason,
            message,
            baseline_slot: r.baseline_slot,
            canary_slot: r.canary_slot,
            canary_release_name: match r.canary_slot {
                Some(cs) => match spec_slot_state(s, cs) {
                    Some(st) => Some(st.release_name),
                    None => None,
                },
                None => None,
            },
        },
        None => ErrorPlanView {
            reason,
            message,
            baseline_slot: s.active_slot,
            canary_slot: None,
            canary_release_name: None,
        },
    }
}

/// Build an error plan from the current status and rollout.
///
/// Determines what cleanup is needed based on current rollout state.
pub fn plan_error(
    status: &HelmReleaseStatus,
    rollout: Option<&RolloutStatus>,
    reason: ErrorReason,
    message: String,
) -> (r: ErrorPlan)
    ensures
        r@ == spec_plan_error(
            status@,
            match rollout {
                Some(ro) => Some(ro@),
                None => None,
            },
            reason,
            message@,
        ),
{
    match rollout {
        Some(r) => {
            let canary_release_name = match r.canary_slot {
                Some(cs) => match get_slot_state(status, cs) {
                    Some(st) => Some(st.release_name.clone()),
                    None => None,
                },
                None => None,
            };
            ErrorPlan {
                reason,
                message,
                baseline_slot: r.baseline_slot,
                canary_slot: r.canary_slot,
                canary_release_name,
            }
        },
        None => ErrorPlan {
            reason,
            message,
            baseline_slot: status.active_slot,
            canary_slot: None,
            canary_release_name: None,
        },
    }
}

/// The version of the current rollout of a status model, or the empty string.
pub open spec fn prior_to_version(s: HelmReleaseStatusView) -> Seq<char> {
    match s.rollout {
        Some(r) => r.to_version,
        None => Seq::empty(),
    }
}

/// The replaced version of the current rollout of a status model.
pub open spec fn prior_from_version(s: HelmReleaseStatusView) -> Option<Seq<char>> {
    match s.rollout {
        Some(r) => r.from_version,
        None => None,
    }
}

/// The latest backend decision of the current rollout of a status model.
pub open spec fn prior_decision(s: HelmReleaseStatusView) -> Option<super::crd::BackendDecision> {
    match s.rollout {
        Some(r) => r.backend_decision,
        None => None,
    }
}

/// The rollout model recorded when a rollout errors.
pub open spec fn errored_rollout(s: HelmReleaseStatusView, plan: ErrorPlanView, now: Timestamp) -> RolloutStatusView {
    RolloutStatusView {
        phase: RolloutPhase::Errored,
        from_version: prior_from_version(s),
        to_version: prior_to_version(s),
        baseline_slot: plan.baseline_slot,
        canary_slot: plan.canary_slot,
        canary_weight: Some(0),
        last_backend_poll: prior_backend_poll(s),
        backend_decision: prior_decision(s),
        started_at: prior_started_at(s),
        completed_at: Some(now),
        message: Some(plan.message),
    }
}

/// The status model after an error: the canary slot (if any) is forgotten,
/// the rollout is Errored, CanaryInProgress is removed, RolloutFailed is set
/// with the error's reason and message, and the rollout is recorded first in
/// the history when it names a version.
pub open spec fn spec_status_after_error(
    s: HelmReleaseStatusView,
    plan: ErrorPlanView,
    generation: Option<i64>,
    now: Timestamp,
) -> HelmReleaseStatusView {
    let s1 = match plan.canary_slot {
        Some(cs) => status_with_slot_cleared(s, cs),
        None => s,
    };
    let rollout = errored_rollout(s, plan, now);
    let s2 = HelmReleaseStatusView { rollout: Some(rollout), ..s1 };
    let s3 = status_with_condition(
        status_without_condition(s2, "CanaryInProgress"@),
        "RolloutFailed"@,
        "True"@,
        plan.reason.spec_condition_reason(),
        plan.message,
        generation,
        now,
    );
    if rollout.to_version.len() > 0 {
        with_history(s3, seq![spec_summary(rollout, now)] + s3.history)
    } else {
        s3
    }
}

/// Produce the updated status after transitioning to the Errored state.
///
/// Clears the canary slot, sets the rollout phase to Errored, sets the
/// RolloutFailed condition, and appends to history.
pub fn status_after_error(
    status: &HelmReleaseStatus,
    plan: &ErrorPlan,
    generation: Option<i64>,
    now: Timestamp,
) -> (r: HelmReleaseStatus)
    ensures
        r@ == spec_status_after_error(status@, plan@, generation, now),
{
    let mut new_status = status.clone();
    match plan.canary_slot {
        Some(cs) => clear_slot_state(&mut new_status, cs),
        None => {},
    }
    let rollout = match &status.rollout {
        Some(r) => RolloutStatus {
            phase: RolloutPhase::Errored,
            from_version: clone_opt_string(&r.from_version),
            to_version: r.to_version.clone(),
            baseline_slot: plan.baseline_slot,
            canary_slot: plan.canary_slot,
            canary_weight: Some(0),
            last_backend_poll: r.last_backend_poll,
            backend_decision: r.backend_decision,
            started_at: r.started_at,
            completed_at: Some(now),
            message: Some(plan.message.clone()),
        },
        None => RolloutStatus {
            phase: RolloutPhase::Errored,
            from_version: None,
            to_version: String::new(),
            baseline_slot: plan.baseline_slot,
            canary_slot: plan.canary_slot,
            canary_weight: Some(0),
            last_backend_poll: None,
            backend_decision: None,
            started_at: None,
            completed_at: Some(now),
            message: Some(plan.message.clone()),
        },
    };
    let record = !rollout.to_version.as_str().is_empty();
    let summary = summary_of(&rollout, now);
    new_status.rollout = Some(rollout);

    clear_canary_in_progress(&mut new_status);
    set_rollout_failed(&mut new_status, plan.reason.as_condition_reason(), plan.message.as_str(), generation, now);

    if record {
        prepend_history(&mut new_status, summary);
    }
    new_status
}

/// Whether a phase is terminal.
pub open spec fn spec_is_terminal(phase: RolloutPhase) -> bool {
    phase != RolloutPhase::InProgress
}

/// Check if a rollout is in a terminal state (and thus not retryable without
/// a new spec change).
pub fn is_terminal(phase: RolloutPhase) -> (r: bool)
    ensures
        r == spec_is_terminal(phase),
{
    match phase {
        RolloutPhase::Promoted | RolloutPhase::RolledBack | RolloutPhase::Errored | RolloutPhase::Cancelled => true,
        RolloutPhase::InProgress => false,
    }
}

} // verus!
