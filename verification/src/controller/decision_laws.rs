//! What the rollout decisions must answer, stated over the slots, versions
//! and annotation values they read: drift, cancellation, the release a
//! rollback or an error tears down, and the weight a poll records.
use vstd::prelude::*;

use super::canary::{spec_plan_rollback, spec_status_after_poll};
use super::cancellation::{spec_evaluate_cancellation, CancelOutcomeView};
use super::crd::{BackendDecision, HelmReleaseStatusView, RolloutPhase, RolloutStatusView, Slot, SlotStateView};
use super::drift::{spec_detect_drift, DriftOutcomeView};
use super::error_handling::{spec_plan_error, ErrorReason};
use crate::time::Timestamp;

verus! {

/// The state recorded in the status for `slot`, read off its slot pair.
pub open spec fn recorded_state(s: HelmReleaseStatusView, slot: Slot) -> Option<SlotStateView> {
    match s.slots {
        Some(pair) => match slot {
            Slot::Red => pair.red,
            Slot::Black => pair.black,
        },
        None => None,
    }
}

/// With a slot active and no rollout in progress, a set target is in sync
/// exactly when it is the active version; otherwise a rollout from the
/// active version to the target is due.
pub proof fn law_drift_compares_active_and_target(
    target: Seq<char>,
    s: HelmReleaseStatusView,
    active: Seq<char>,
)
    requires
        s.active_slot is Some,
        s.active_version == Some(active),
        !(s.rollout matches Some(r) && r.phase == RolloutPhase::InProgress),
    ensures
        active == target ==> spec_detect_drift(Some(target), Some(s)) == DriftOutcomeView::InSync,
        active != target ==> spec_detect_drift(Some(target), Some(s)) == (DriftOutcomeView::VersionDrift {
            from_version: active,
            to_version: target,
        }),
{
}

/// A set target is reported in sync only when a slot is active at exactly
/// that version.
pub proof fn law_drift_in_sync_only_at_target(target: Seq<char>, status: Option<HelmReleaseStatusView>)
    ensures
        spec_detect_drift(Some(target), status) == DriftOutcomeView::InSync ==> (status matches Some(s)
            && s.active_slot is Some && s.active_version == Some(target)),
{
}

/// A cancellation goes ahead only when its value is `true` or the rollout's
/// identifier, `<from version or none>-><to version>`.
pub proof fn law_cancel_only_on_true_or_rollout_id(value: Seq<char>, s: HelmReleaseStatusView)
    ensures
        spec_evaluate_cancellation(Some(value), s) is Cancel ==> (s.rollout matches Some(r) && (value == "true"@
            || value == (match r.from_version {
            Some(v) => v,
            None => "none"@,
        }) + "->"@ + r.to_version)),
{
}

/// For a rollout in progress naming both slots, with the canary recorded: a
/// value other than `true` and the rollout identifier is rejected as a
/// mismatch naming both, and a matching value cancels, naming the recorded
/// canary release.
pub proof fn law_cancel_checks_rollout_id(
    value: Seq<char>,
    s: HelmReleaseStatusView,
    r: RolloutStatusView,
    baseline: Slot,
    canary: Slot,
    canary_release: Seq<char>,
    canary_version: Seq<char>,
)
    requires
        s.rollout == Some(r),
        r.phase == RolloutPhase::InProgress,
        r.baseline_slot == Some(baseline),
        r.canary_slot == Some(canary),
        recorded_state(s, canary) == Some(SlotStateView { version: canary_version, release_name: canary_release }),
    ensures
        ({
            let id = (match r.from_version {
                Some(v) => v,
                None => "none"@,
            }) + "->"@ + r.to_version;
            &&& (value != "true"@ && value != id) ==> spec_evaluate_cancellation(Some(value), s) == (
            CancelOutcomeView::RolloutIdMismatch { expected: id, actual: value })
            &&& (value == "true"@ || value == id) ==> spec_evaluate_cancellation(Some(value), s) == (
            CancelOutcomeView::Cancel { baseline_slot: baseline, canary_slot: canary, canary_release_name: canary_release })
        }),
{
}

/// A rollback plan names the release recorded for the rollout's canary slot
/// as the one to uninstall, keeps the baseline slot and the versions, and
/// there is no plan when the canary slot has no recorded state.
pub proof fn law_rollback_uninstalls_recorded_canary(s: HelmReleaseStatusView, r: RolloutStatusView)
    ensures
        spec_plan_rollback(s, r) matches Some(p) ==> {
            &&& r.canary_slot == Some(p.canary_slot)
            &&& r.baseline_slot == Some(p.baseline_slot)
            &&& recorded_state(s, p.canary_slot) matches Some(st)
            &&& p.canary_release_name == recorded_state(s, p.canary_slot)->0.release_name
            &&& p.to_version == r.to_version
            &&& p.from_version == r.from_version
        },
        (r.canary_slot is Some && r.baseline_slot is Some && recorded_state(s, r.canary_slot->0) is Some)
            ==> spec_plan_rollback(s, r) is Some,
        (r.canary_slot is Some && recorded_state(s, r.canary_slot->0) is None) ==> spec_plan_rollback(s, r) is None,
{
}

/// An error during a rollout that names a canary slot plans to uninstall the
/// release recorded for that slot, and none when it has no recorded state.
pub proof fn law_error_uninstalls_recorded_canary(
    s: HelmReleaseStatusView,
    r: RolloutStatusView,
    canary: Slot,
    reason: ErrorReason,
    message: Seq<char>,
)
    requires
        r.canary_slot == Some(canary),
    ensures
        ({
            let plan = spec_plan_error(s, Some(r), reason, message);
            let recorded = recorded_state(s, canary);
            &&& plan.canary_slot == Some(canary)
            &&& plan.baseline_slot == r.baseline_slot
            &&& plan.canary_release_name == match recorded {
                Some(st) => Some(st.release_name),
                None => None,
            }
        }),
{
}

/// A poll records the requested weight whatever the weight was before, and
/// keeps the previous weight when none is requested; it records the decision
/// and the poll time and leaves the rollout in progress.
pub proof fn law_poll_records_requested_weight(
    r: RolloutStatusView,
    decision: BackendDecision,
    new_weight: Option<u32>,
    message: Option<Seq<char>>,
    now: Timestamp,
)
    ensures
        ({
            let post = spec_status_after_poll(r, decision, new_weight, message, now);
            &&& new_weight matches Some(w) ==> post.canary_weight == Some(w)
            &&& new_weight is None ==> post.canary_weight == r.canary_weight
            &&& post.backend_decision == Some(decision)
            &&& post.last_backend_poll == Some(now)
            &&& post.phase == RolloutPhase::InProgress
            &&& post.to_version == r.to_version
            &&& post.from_version == r.from_version
        }),
{
}

} // verus!
