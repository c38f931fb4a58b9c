//! Canary reconciliation: evaluating backend polls, promotion and rollback.
use vstd::prelude::*;

use super::conditions::{
    clear_canary_in_progress, set_available, set_rollout_failed, status_with_condition,
    status_without_condition,
};
use super::crd::{
    clone_opt_string, opt_view, BackendDecision, HelmReleaseStatus, HelmReleaseStatusView,
    RolloutPhase, RolloutStatus, RolloutStatusView, Slot,
};
use super::history::{prepend_history, spec_summary, summary_of, with_history};
use super::slots::{
    clear_slot_state, get_slot_state, promote_slot, spec_slot_state, status_with_slot_cleared,
    status_with_slot_promoted,
};
use crate::time::Timestamp;

verus! {

/// Outcome of evaluating a single backend poll during canary reconciliation.
#[derive(Debug, Clone, PartialEq, Eq, Structural)]
pub enum CanaryAction {
    /// Backend says keep observing, at the given canary weight.
    AdjustWeight { canary_slot: Slot, canary_weight: u32 },
    /// Backend says promote: transition to the promotion sequence.
    Promote,
    /// Backend says rollback: transition to the rollback sequence.
    Rollback,
}

/// Evaluate the backend decision and determine what action to take.
pub fn evaluate_poll(decision: BackendDecision, canary_slot: Slot, current_weight: u32) -> (r: CanaryAction)
    ensures
        r == match decision {
            BackendDecision::Observing => CanaryAction::AdjustWeight { canary_slot, canary_weight: current_weight },
            BackendDecision::Promote => CanaryAction::Promote,
            BackendDecision::Rollback => CanaryAction::Rollback,
        },
{
    match decision {
        BackendDecision::Observing => CanaryAction::AdjustWeight { canary_slot, canary_weight: current_weight },
        BackendDecision::Promote => CanaryAction::Promote,
        BackendDecision::Rollback => CanaryAction::Rollback,
    }
}

/// The rollout model after a poll: still in progress, poll time and
/// decision recorded, weight and message replaced when given.
pub open spec fn spec_status_after_poll(
    r: RolloutStatusView,
    decision: BackendDecision,
    new_weight: Option<u32>,
    message: Option<Seq<char>>,
    now: Timestamp,
) -> RolloutStatusView {
    RolloutStatusView {
        phase: RolloutPhase::InProgress,
        last_backend_poll: Some(now),
        backend_decision: Some(decision),
        canary_weight: if new_weight is Some { new_weight } else { r.canary_weight },
        message: if message is Some { message } else { r.message },
        completed_at: None,
        ..r
    }
}

/// Update the rollout status after a backend poll that returned Observing.
///
/// Records the poll timestamp, the decision, and an optional updated weight.
pub fn status_after_poll(
    rollout: &RolloutStatus,
    decision: BackendDecision,
    new_weight: Option<u32>,
    message: Option<String>,
    now: Timestamp,
) -> (r: RolloutStatus)
    ensures
        r@ == spec_status_after_poll(rollout@, decision, new_weight, opt_view(message), now),
{
    RolloutStatus {
        phase: RolloutPhase::InProgress,
        last_backend_poll: Some(now),
        backend_decision: Some(decision),
        canary_weight: match new_weight {
            Some(w) => Some(w),
            None => rollout.canary_weight,
        },
        message: match message {
            Some(m) => Some(m),
            None => clone_opt_string(&rollout.message),
        },
        from_version: clone_opt_string(&rollout.from_version),
        to_version: rollout.to_version.clone(),
        baseline_slot: rollout.baseline_slot,
        canary_slot: rollout.canary_slot,
        started_at: rollout.started_at,
        completed_at: None,
    }
}

/// Whether a rollout model is eligible for backend polling.
pub open spec fn spec_is_pollable(r: RolloutStatusView) -> bool {
    r.phase == RolloutPhase::InProgress && r.baseline_slot is Some && r.canary_slot is Some
}

/// Check whether a rollout is eligible for backend polling.
///
/// Only InProgress rollouts with both baseline and canary slots set are
/// eligible.
pub fn is_pollable(rollout: &RolloutStatus) -> (r: bool)
    ensures
        r == spec_is_pollable(rollout@),
{
    rollout.phase == RolloutPhase::InProgress && rollout.baseline_slot.is_some() && rollout.canary_slot.is_some()
}

/// Extract the baseline slot, canary slot and current weight (0 when unset)
/// from a rollout, if pollable.
pub fn poll_context(rollout: &RolloutStatus) -> (r: Option<(Slot, Slot, u32)>)
    ensures
        r == (if spec_is_pollable(rollout@) {
            Some(
                (
                    rollout.baseline_slot->0,
                    rollout.canary_slot->0,
                    match rollout.canary_weight {
                        Some(w) => w,
                        None => 0,
                    },
                ),
            )
        } else {
            None
        }),
{
    if !is_pollable(rollout) {
        return None;
    }
    let baseline = match rollout.baseline_slot {
        Some(s) => s,
        None => {
            return None;
        },
    };
    let canary = match rollout.canary_slot {
        Some(s) => s,
        None => {
            return None;
        },
    };
    let weight = match rollout.canary_weight {
        Some(w) => w,
        None => 0,
    };
    Some((baseline, canary, weight))
}

/// Fields of the current rollout of a status model that later phases keep.
pub open spec fn prior_backend_poll(s: HelmReleaseStatusView) -> Option<Timestamp> {
    match s.rollout {
        Some(r) => r.last_backend_poll,
        None => None,
    }
}

/// When the current rollout of a status model started, if recorded.
pub open spec fn prior_started_at(s: HelmReleaseStatusView) -> Option<Timestamp> {
    match s.rollout {
        Some(r) => r.started_at,
        None => None,
    }
}

// ---------------------------------------------------------------------------
// Promotion
// ---------------------------------------------------------------------------

/// Plan for promoting a canary release to active.
#[derive(Debug, PartialEq, Eq)]
pub struct PromotionPlan {
    /// The slot being promoted (canary becomes active).
    pub canary_slot: Slot,
    /// The slot being decommissioned (old active).
    pub baseline_slot: Slot,
    /// Release name of the baseline to uninstall.
    pub baseline_release_name: String,
    /// Version being promoted.
    pub to_version: String,
    /// Version being replaced.
    pub from_version: Option<String>,
}

/// Model of a [`PromotionPlan`].
pub struct PromotionPlanView {
    pub canary_slot: Slot,
    pub baseline_slot: Slot,
    pub baseline_release_name: Seq<char>,
    pub to_version: Seq<char>,
    pub from_version: Option<Seq<char>>,
}

impl View for PromotionPlan {
    type V = PromotionPlanView;

    open spec fn view(&self) -> PromotionPlanView {
        PromotionPlanView {
            canary_slot: self.canary_slot,
            baseline_slot: self.baseline_slot,
            baseline_release_name: self.baseline_release_name@,
            to_version: self.to_version@,
            from_version: opt_view(self.from_version),
        }
    }
}

/// The promotion plan for a status and rollout model: defined when the
/// rollout names both slots and the baseline slot has recorded state.
pub open spec fn spec_plan_promotion(s: HelmReleaseStatusView, r: RolloutStatusView) -> Option<PromotionPlanView> {
    match (r.canary_slot, r.baseline_slot) {
        (Some(canary), Some(baseline)) => match spec_slot_state(s, baseline) {
            Some(st) => Some(
                PromotionPlanView {
                    canary_slot: canary,
                    baseline_slot: baseline,
                    baseline_release_name: st.release_name,
                    to_version: r.to_version,
                    from_version: r.from_version,
                },
            ),
            None => None,
        },
        _ => None,
    }
}

/// Build a promotion plan from the current rollout status.
pub fn plan_promotion(status: &HelmReleaseStatus, rollout: &RolloutStatus) -> (r: Option<PromotionPlan>)
    ensures
        match r {
            Some(p) => spec_plan_promotion(status@, rollout@) == Some(p@),
            None => spec_plan_promotion(status@, rollout@) is None,
        },
{
    let canary_slot = match rollout.canary_slot {
        Some(s) => s,
        None => {
            return None;
        },
    };
    let baseline_slot = match rollout.baseline_slot {
        Some(s) => s,
        None => {
            return None;
        },
    };
    let baseline_state = match get_slot_state(status, baseline_slot) {
        Some(st) => st,
        None => {
            return None;
        },
    };
    Some(
        PromotionPlan {
            canary_slot,
            baseline_slot,
            baseline_release_name: baseline_state.release_name.clone(),
            to_version: rollout.to_version.clone(),
            from_version: clone_opt_string(&rollout.from_version),
        },
    )
}

/// The rollout message recorded on promotion.
pub open spec fn promoted_message(to_version: Seq<char>) -> Seq<char> {
    "Promoted "@ + to_version + " to active"@
}

/// The Available condition message recorded on promotion.
pub open spec fn promoted_condition_message(to_version: Seq<char>) -> Seq<char> {
    "Version "@ + to_version + " promoted to active"@
}

/// The rollout model recorded on promotion.
pub open spec fn promoted_rollout(
    s: HelmReleaseStatusView,
    plan: PromotionPlanView,
    now: Timestamp,
) -> RolloutStatusView {
    RolloutStatusView {
        phase: RolloutPhase::Promoted,
        from_version: plan.from_version,
        to_version: plan.to_version,
        baseline_slot: Some(plan.baseline_slot),
        canary_slot: Some(plan.canary_slot),
        canary_weight: Some(100),
        last_backend_poll: prior_backend_poll(s),
        backend_decision: Some(BackendDecision::Promote),
        started_at: prior_started_at(s),
        completed_at: Some(now),
        message: Some(promoted_message(plan.to_version)),
    }
}

/// The status model after a successful promotion: the canary slot becomes
/// active, the baseline slot is forgotten, the rollout is Promoted,
/// CanaryInProgress is removed, Available is set, and the rollout is
/// recorded first in the history.
pub open spec fn spec_status_after_promotion(
    s: HelmReleaseStatusView,
    plan: PromotionPlanView,
    generation: Option<i64>,
    now: Timestamp,
) -> HelmReleaseStatusView {
    let s1 = status_with_slot_cleared(status_with_slot_promoted(s, plan.canary_slot), plan.baseline_slot);
    let rollout = promoted_rollout(s, plan, now);
    let s2 = HelmReleaseStatusView { rollout: Some(rollout), ..s1 };
    let s3 = status_with_condition(
        status_without_condition(s2, "CanaryInProgress"@),
        "Available"@,
        "True"@,
        "Promoted"@,
        promoted_condition_message(plan.to_version),
        generation,
        now,
    );
    with_history(s3, seq![spec_summary(rollout, now)] + s3.history)
}

/// Produce the updated status after a successful promotion.
///
/// Flips the active slot, records the completed rollout, clears the
/// CanaryInProgress condition, and appends to history.
pub fn status_after_promotion(
    status: &HelmReleaseStatus,
    plan: &PromotionPlan,
    generation: Option<i64>,
    now: Timestamp,
) -> (r: HelmReleaseStatus)
    ensures
        r@ == spec_status_after_promotion(status@, plan@, generation, now),
{
    let mut new_status = status.clone();
    promote_slot(&mut new_status, plan.canary_slot);
    clear_slot_state(&mut new_status, plan.baseline_slot);

    let (last_backend_poll, started_at) = match &status.rollout {
        Some(r) => (r.last_backend_poll, r.started_at),
        None => (None, None),
    };
    let mut message = "Promoted ".to_owned();
    message.append(plan.to_version.as_str());
    message.append(" to active");
    let rollout = RolloutStatus {
        phase: RolloutPhase::Promoted,
        from_version: clone_opt_string(&plan.from_version),
        to_version: plan.to_version.clone(),
        baseline_slot: Some(plan.baseline_slot),
        canary_slot: Some(plan.canary_slot),
        canary_weight: Some(100),
        last_backend_poll,
        backend_decision: Some(BackendDecision::Promote),
        started_at,
        completed_at: Some(now),
        message: Some(message),
    };
    let summary = summary_of(&rollout, now);
    new_status.rollout = Some(rollout);

    clear_canary_in_progress(&mut new_status);
    let mut condition_message = "Version ".to_owned();
    condition_message.append(plan.to_version.as_str());
    condition_message.append(" promoted to active");
    set_available(&mut new_status, "Promoted", condition_message.as_str(), generation, now);

    prepend_history(&mut new_status, summary);
    new_status
}

// ---------------------------------------------------------------------------
// Rollback
// ---------------------------------------------------------------------------

/// Plan for rolling back a canary release.
#[derive(Debug, PartialEq, Eq)]
pub struct RollbackPlan {
    /// The slot to roll back to (baseline stays active).
    pub baseline_slot: Slot,
    /// The slot being torn down (canary).
    pub canary_slot: Slot,
    /// Release name of the canary to uninstall.
    pub canary_release_name: String,
    /// Version that was being deployed (rolled back).
    pub to_version: String,
    /// Version that remains active.
    pub from_version: Option<String>,
}

/// Model of a [`RollbackPlan`].
pub struct RollbackPlanView {
    pub baseline_slot: Slot,
    pub canary_slot: Slot,
    pub canary_release_name: Seq<char>,
    pub to_version: Seq<char>,
    pub from_version: Option<Seq<char>>,
}

impl View for RollbackPlan {
    type V = RollbackPlanView;

    open spec fn view(&self) -> RollbackPlanView {
        RollbackPlanView {
            baseline_slot: self.baseline_slot,
            canary_slot: self.canary_slot,
            canary_release_name: self.canary_release_name@,
            to_version: self.to_version@,
            from_version: opt_view(self.from_version),
        }
    }
}

/// The rollback plan for a status and rollout model: defined when the
/// rollout names both slots and the canary slot has recorded state.
pub open spec fn spec_plan_rollback(s: HelmReleaseStatusView, r: RolloutStatusView) -> Option<RollbackPlanView> {
    match (r.canary_slot, r.baseline_slot) {
        (Some(canary), Some(baseline)) => match spec_slot_state(s, canary) {
            Some(st) => Some(
                RollbackPlanView {
                    baseline_slot: baseline,
                    canary_slot: canary,
                    canary_release_name: st.release_name,
                    to_version: r.to_version,
                    from_version: r.from_version,
                },
            ),
            None => None,
        },
        _ => None,
    }
}

/// Build a rollback plan from the current rollout status.
pub fn plan_rollback(status: &HelmReleaseStatus, rollout: &RolloutStatus) -> (r: Option<RollbackPlan>)
    ensures
        match r {
            Some(p) => spec_plan_rollback(status@, rollout@) == Some(p@),
            None => spec_plan_rollback(status@, rollout@) is None,
        },
{
    let canary_slot = match rollout.canary_slot {
        Some(s) => s,
        None => {
            return None;
        },
    };
    let baseline_slot = match rollout.baseline_slot {
        Some(s) => s,
        None => {
            return None;
        },
    };
    let canary_state = match get_slot_state(status, canary_slot) {
        Some(st) => st,
        None => {
            return None;
        },
    };
    Some(
        RollbackPlan {
            baseline_slot,
            canary_slot,
            canary_release_name: canary_state.release_name.clone(),
            to_version: rollout.to_version.clone(),
            from_version: clone_opt_string(&rollout.from_version),
        },
    )
}

/// The rollout message recorded on rollback.
pub open spec fn rolled_back_message(to_version: Seq<char>, from_version: Option<Seq<char>>) -> Seq<char> {
    let from = match from_version {
        Some(v) => v,
        None => "unknown"@,
    };
    "Rolled back from "@ + to_version + " to "@ + from
}

/// The RolloutFailed condition message recorded on rollback.
pub open spec fn rolled_back_condition_message(to_version: Seq<char>) -> Seq<char> {
    "Canary rollout of "@ + to_version + " rolled back"@
}

/// The rollout model recorded on rollback.
pub open spec fn rolled_back_rollout(
    s: HelmReleaseStatusView,
    plan: RollbackPlanView,
    now: Timestamp,
) -> RolloutStatusView {
    RolloutStatusView {
        phase: RolloutPhase::RolledBack,
        from_version: plan.from_version,
        to_version: plan.to_version,
        baseline_slot: Some(plan.baseline_slot),
        canary_slot: Some(plan.canary_slot),
        canary_weight: Some(0),
        last_backend_poll: prior_backend_poll(s),
        backend_decision: Some(BackendDecision::Rollback),
        started_at: prior_started_at(s),
        completed_at: Some(now),
        message: Some(rolled_back_message(plan.to_version, plan.from_version)),
    }
}

/// The status model after a rollback: the canary slot is forgotten (the
/// active slot is untouched), the rollout is RolledBack, CanaryInProgress is
/// removed, RolloutFailed is set, and the rollout is recorded first in the
/// history.
pub open spec fn spec_status_after_rollback(
    s: HelmReleaseStatusView,
    plan: RollbackPlanView,
    generation: Option<i64>,
    now: Timestamp,
) -> HelmReleaseStatusView {
    let s1 = status_with_slot_cleared(s, plan.canary_slot);
    let rollout = rolled_back_rollout(s, plan, now);
    let s2 = HelmReleaseStatusView { rollout: Some(rollout), ..s1 };
    let s3 = status_with_condition(
        status_without_condition(s2, "CanaryInProgress"@),
        "RolloutFailed"@,
        "True"@,
        "CanaryRollback"@,
        rolled_back_condition_message(plan.to_version),
        generation,
        now,
    );
    with_history(s3, seq![spec_summary(rollout, now)] + s3.history)
}

/// Produce the updated status after a successful rollback.
///
/// Keeps the baseline slot active, records the completed rollout,
/// sets the RolloutFailed condition, clears CanaryInProgress, and
/// appends to history.
pub fn status_after_rollback(
    status: &HelmReleaseStatus,
    plan: &RollbackPlan,
    generation: Option<i64>,
    now: Timestamp,
) -> (r: HelmReleaseStatus)
    ensures
        r@ == spec_status_after_rollback(status@, plan@, generation, now),
{
    let mut new_status = status.clone();
    clear_slot_state(&mut new_status, plan.canary_slot);

    let (last_backend_poll, started_at) = match &status.rollout {
        Some(r) => (r.last_backend_poll, r.started_at),
        None => (None, None),
    };
    let mut message = "Rolled back from ".to_owned();
    message.append(plan.to_version.as_str());
    message.append(" to ");
    match &plan.from_version {
        Some(v) => message.append(v.as_str()),
        None => message.append("unknown"),
    }
    let rollout = RolloutStatus {
        phase: RolloutPhase::RolledBack,
        from_version: clone_opt_string(&plan.from_version),
        to_version: plan.to_version.clone(),
        baseline_slot: Some(plan.baseline_slot),
        canary_slot: Some(plan.canary_slot),
        canary_weight: Some(0),
        last_backend_poll,
        backend_decision: Some(BackendDecision::Rollback),
        started_at,
        completed_at: Some(now),
        message: Some(message),
    };
    let summary = summary_of(&rollout, now);
    new_status.rollout = Some(rollout);

    clear_canary_in_progress(&mut new_status);
    let mut condition_message = "Canary rollout of ".to_owned();
    condition_message.append(plan.to_version.as_str());
    condition_message.append(" rolled back");
    set_rollout_failed(&mut new_status, "CanaryRollback", condition_message.as_str(), generation, now);

    prepend_history(&mut new_status, summary);
    new_status
}

} // verus!
