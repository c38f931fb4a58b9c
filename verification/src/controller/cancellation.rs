//! Rollout cancellation requested through an annotation.
use vstd::prelude::*;

use super::canary::{prior_backend_poll, prior_started_at};
use super::conditions::{
    clear_canary_in_progress, clear_reconciling, set_available, status_with_condition,
    status_without_condition,
};
use super::crd::{
    clone_opt_string, HelmRelease, HelmReleaseStatus, HelmReleaseStatusView, RolloutPhase,
    RolloutStatus, RolloutStatusView, Slot,
};
use super::error_handling::{is_terminal, prior_decision, prior_from_version, prior_to_version, spec_is_terminal};
use super::history::{prepend_history, spec_summary, summary_of, with_history};
use super::slots::{clear_slot_state, get_slot_state, spec_slot_state, status_with_slot_cleared};
use crate::text::str_eq;
use crate::time::Timestamp;

verus! {

/// Annotation key that triggers rollout cancellation.
pub const CANCEL_ANNOTATION: &'static str = "multitool.io/cancel-rollout";

/// The value of the first annotation with key `key`, if any.
pub open spec fn find_annotation(anns: Seq<(Seq<char>, Seq<char>)>, key: Seq<char>) -> Option<Seq<char>>
    decreases anns.len(),
{
    if anns.len() == 0 {
        None
    } else if anns[0].0 == key {
        Some(anns[0].1)
    } else {
        find_annotation(anns.drop_first(), key)
    }
}

/// The value of the cancellation annotation of an annotation set, if any.
pub open spec fn spec_cancel_value(anns: Option<Seq<(Seq<char>, Seq<char>)>>) -> Option<Seq<char>> {
    match anns {
        Some(a) => find_annotation(a, "multitool.io/cancel-rollout"@),
        None => None,
    }
}

/// Check if the HelmRelease has a cancellation annotation.
pub fn has_cancel_annotation(hr: &HelmRelease) -> (r: bool)
    ensures
        r == spec_cancel_value(hr@.metadata.annotations) is Some,
{
    cancel_annotation_value(hr).is_some()
}

/// Get the value of the cancellation annotation (the rollout ID or "true").
pub fn cancel_annotation_value(hr: &HelmRelease) -> (r: Option<&str>)
    ensures
        match r {
            Some(v) => spec_cancel_value(hr@.metadata.annotations) == Some(v@),
            None => spec_cancel_value(hr@.metadata.annotations) is None,
        },
{
    let anns = match &hr.metadata.annotations {
        Some(a) => a,
        None => {
            return None;
        },
    };
    let ghost a = anns.deep_view();
    let mut i: usize = 0;
    assert(a.skip(0) =~= a);
    while i < anns.len()
        invariant
            0 <= i <= anns.len(),
            a == anns.deep_view(),
            hr@.metadata.annotations == Some(a),
            find_annotation(a, CANCEL_ANNOTATION@) == find_annotation(a.skip(i as int), CANCEL_ANNOTATION@),
        decreases anns.len() - i,
    {
        if str_eq(anns[i].0.as_str(), CANCEL_ANNOTATION) {
            assert(a.skip(i as int)[0] == a[i as int]);
            assert(a[i as int] == anns@[i as int].deep_view());
            assert(CANCEL_ANNOTATION@ == "multitool.io/cancel-rollout"@);
            return Some(anns[i].1.as_str());
        }
        assert(a.skip(i as int).drop_first() =~= a.skip(i + 1));
        i = i + 1;
    }
    assert(a.skip(i as int).len() == 0);
    None
}

/// The identifier of a rollout: `{from_version}->{to_version}`, with `none`
/// standing for a missing from-version.
pub open spec fn spec_rollout_id(r: RolloutStatusView) -> Seq<char> {
    let from = match r.from_version {
        Some(v) => v,
        None => "none"@,
    };
    from + "->"@ + r.to_version
}

/// Derive a stable rollout ID from the current rollout status.
pub fn rollout_id(rollout: &RolloutStatus) -> (r: String)
    ensures
        r@ == spec_rollout_id(rollout@),
{
    let mut id = match &rollout.from_version {
        Some(v) => v.clone(),
        None => "none".to_owned(),
    };
    id.append("->");
    id.append(rollout.to_version.as_str());
    id
}

/// Why a cancellation request was rejected.
#[derive(Debug, Clone, PartialEq, Eq)]
pub enum CancelRejection {
    /// The rollout is already in a terminal state.
    AlreadyTerminal { phase: RolloutPhase },
    /// The rollout ID in the annotation does not match the active rollout.
    RolloutIdMismatch { expected: String, actual: String },
}

/// Outcome of evaluating a cancellation request.
#[derive(Debug, Clone, PartialEq, Eq)]
pub enum CancelOutcome {
    /// No cancellation annotation present.
    NoAnnotation,
    /// Cancellation requested but no rollout is in progress.
    NoActiveRollout,
    /// Cancellation annotation present but invalid (rejected).
    Rejected(CancelRejection),
    /// Cancellation requested; proceed with cancellation.
    Cancel { baseline_slot: Slot, canary_slot: Slot, canary_release_name: String },
}

/// Model of a [`CancelOutcome`].
pub enum CancelOutcomeView {
    NoAnnotation,
    NoActiveRollout,
    AlreadyTerminal { phase: RolloutPhase },
    RolloutIdMismatch { expected: Seq<char>, actual: Seq<char> },
    Cancel { baseline_slot: Slot, canary_slot: Slot, canary_release_name: Seq<char> },
}

impl View for CancelOutcome {
    type V = CancelOutcomeView;

    open spec fn view(&self) -> CancelOutcomeView {
        match self {
            CancelOutcome::NoAnnotation => CancelOutcomeView::NoAnnotation,
            CancelOutcome::NoActiveRollout => CancelOutcomeView::NoActiveRollout,
            CancelOutcome::Rejected(CancelRejection::AlreadyTerminal { phase }) => CancelOutcomeView::AlreadyTerminal {
                phase: *phase,
            },
            CancelOutcome::Rejected(CancelRejection::RolloutIdMismatch { expected, actual }) => {
                CancelOutcomeView::RolloutIdMismatch { expected: expected@, actual: actual@ }
            },
            CancelOutcome::Cancel { baseline_slot, canary_slot, canary_release_name } => CancelOutcomeView::Cancel {
                baseline_slot: *baseline_slot,
                canary_slot: *canary_slot,
                canary_release_name: canary_release_name@,
            },
        }
    }
}

/// Whether a cancellation of rollout `r` is accepted: any value but `true`
/// must be the rollout's identifier.
pub open spec fn spec_cancel_matches(value: Seq<char>, r: RolloutStatusView) -> bool {
    value == "true"@ || value == spec_rollout_id(r)
}

/// The outcome of a cancellation request, given the annotation value and the
/// status model.
pub open spec fn spec_evaluate_cancellation(value: Option<Seq<char>>, s: HelmReleaseStatusView) -> CancelOutcomeView {
    match value {
        None => CancelOutcomeView::NoAnnotation,
        Some(v) => match s.rollout {
            None => CancelOutcomeView::NoActiveRollout,
            Some(r) => if spec_is_terminal(r.phase) {
                CancelOutcomeView::AlreadyTerminal { phase: r.phase }
            } else if !spec_cancel_matches(v, r) {
                CancelOutcomeView::RolloutIdMismatch { expected: spec_rollout_id(r), actual: v }
            } else {
                match (r.canary_slot, r.baseline_slot) {
                    (Some(canary), Some(baseline)) => match spec_slot_state(s, canary) {
                        Some(st) => CancelOutcomeView::Cancel {
                            baseline_slot: baseline,
                            canary_slot: canary,
                            canary_release_name: st.release_name,
                        },
                        None => CancelOutcomeView::NoActiveRollout,
                    },
                    _ => CancelOutcomeView::NoActiveRollout,
                }
            },
        },
    }
}

/// Evaluate whether a cancellation should proceed.
///
/// The annotation value is validated against the active rollout ID when the
/// value is not `"true"` (a bare `"true"` acts as an unconditional cancel).
pub fn evaluate_cancellation(hr: &HelmRelease, status: &HelmReleaseStatus) -> (r: CancelOutcome)
    ensures
        r@ == spec_evaluate_cancellation(spec_cancel_value(hr@.metadata.annotations), status@),
{
    let value = match cancel_annotation_value(hr) {
        Some(v) => v,
        None => {
            return CancelOutcome::NoAnnotation;
        },
    };
    let rollout = match &status.rollout {
        Some(r) => r,
        None => {
            return CancelOutcome::NoActiveRollout;
        },
    };
    if is_terminal(rollout.phase) {
        return CancelOutcome::Rejected(CancelRejection::AlreadyTerminal { phase: rollout.phase });
    }
    if !str_eq(value, "true") {
        let current_id = rollout_id(rollout);
        if !str_eq(current_id.as_str(), value) {
            return CancelOutcome::Rejected(
                CancelRejection::RolloutIdMismatch { expected: current_id, actual: value.to_owned() },
            );
        }
    }
    let canary_slot = match rollout.canary_slot {
        Some(s) => s,
        None => {
            return CancelOutcome::NoActiveRollout;
        },
    };
    let baseline_slot = match rollout.baseline_slot {
        Some(s) => s,
        None => {
            return CancelOutcome::NoActiveRollout;
        },
    };
    let canary_release_name = match get_slot_state(status, canary_slot) {
        Some(s) => s.release_name.clone(),
        None => {
            return CancelOutcome::NoActiveRollout;
        },
    };
    CancelOutcome::Cancel { baseline_slot, canary_slot, canary_release_name }
}

/// Return the annotation keys that should be removed after cancellation.
pub fn annotations_to_remove() -> (r: &'static [&'static str])
    ensures
        r@.len() == 1,
        r@[0]@ == "multitool.io/cancel-rollout"@,
{
    &[CANCEL_ANNOTATION]
}

/// The rollout model recorded when a rollout is cancelled.
pub open spec fn cancelled_rollout(
    s: HelmReleaseStatusView,
    baseline_slot: Slot,
    canary_slot: Slot,
    now: Timestamp,
) -> RolloutStatusView {
    RolloutStatusView {
        phase: RolloutPhase::Cancelled,
        from_version: prior_from_version(s),
        to_version: prior_to_version(s),
        baseline_slot: Some(baseline_slot),
        canary_slot: Some(canary_slot),
        canary_weight: Some(0),
        last_backend_poll: prior_backend_poll(s),
        backend_decision: prior_decision(s),
        started_at: prior_started_at(s),
        completed_at: Some(now),
        message: Some("Rollout cancelled by user"@),
    }
}

/// The Available condition message recorded on cancellation.
pub open spec fn cancelled_condition_message(active_version: Seq<char>) -> Seq<char> {
    "Rollout cancelled; "@ + active_version + " remains active"@
}

/// The status model after a cancellation: the canary slot is forgotten, the
/// rollout is Cancelled, CanaryInProgress and Reconciling are removed,
/// Available is set when a version is active (RolloutFailed is not touched),
/// and the rollout is recorded first in the history when it names a version.
pub open spec fn spec_status_after_cancellation(
    s: HelmReleaseStatusView,
    baseline_slot: Slot,
    canary_slot: Slot,
    generation: Option<i64>,
    now: Timestamp,
) -> HelmReleaseStatusView {
    let rollout = cancelled_rollout(s, baseline_slot, canary_slot, now);
    let s1 = HelmReleaseStatusView { rollout: Some(rollout), ..status_with_slot_cleared(s, canary_slot) };
    let s2 = status_without_condition(status_without_condition(s1, "CanaryInProgress"@), "Reconciling"@);
    let s3 = match s2.active_version {
        Some(v) => status_with_condition(
            s2,
            "Available"@,
            "True"@,
            "Cancelled"@,
            cancelled_condition_message(v),
            generation,
            now,
        ),
        None => s2,
    };
    if rollout.to_version.len() > 0 {
        with_history(s3, seq![spec_summary(rollout, now)] + s3.history)
    } else {
        s3
    }
}

/// Produce the updated status after a successful cancellation.
///
/// Sets phase to Cancelled, clears canary slot, clears CanaryInProgress,
/// and appends to history. Does NOT set RolloutFailed condition.
pub fn status_after_cancellation(
    status: &HelmReleaseStatus,
    baseline_slot: Slot,
    canary_slot: Slot,
    generation: Option<i64>,
    now: Timestamp,
) -> (r: HelmReleaseStatus)
    ensures
        r@ == spec_status_after_cancellation(status@, baseline_slot, canary_slot, generation, now),
{
    let mut new_status = status.clone();
    clear_slot_state(&mut new_status, canary_slot);
    let rollout = match &status.rollout {
        Some(r) => RolloutStatus {
            phase: RolloutPhase::Cancelled,
            from_version: clone_opt_string(&r.from_version),
            to_version: r.to_version.clone(),
            baseline_slot: Some(baseline_slot),
            canary_slot: Some(canary_slot),
            canary_weight: Some(0),
            last_backend_poll: r.last_backend_poll,
            backend_decision: r.backend_decision,
            started_at: r.started_at,
            completed_at: Some(now),
            message: Some("Rollout cancelled by user".to_owned()),
        },
        None => RolloutStatus {
            phase: RolloutPhase::Cancelled,
            from_version: None,
            to_version: String::new(),
            baseline_slot: Some(baseline_slot),
            canary_slot: Some(canary_slot),
            canary_weight: Some(0),
            last_backend_poll: None,
            backend_decision: None,
            started_at: None,
            completed_at: Some(now),
            message: Some("Rollout cancelled by user".to_owned()),
        },
    };
    let record = !rollout.to_version.as_str().is_empty();
    let summary = summary_of(&rollout, now);
    new_status.rollout = Some(rollout);

    clear_canary_in_progress(&mut new_status);
    clear_reconciling(&mut new_status);

    match clone_opt_string(&new_status.active_version) {
        Some(active_version) => {
            let mut message = "Rollout cancelled; ".to_owned();
            message.append(active_version.as_str());
            message.append(" remains active");
            set_available(&mut new_status, "Cancelled", message.as_str(), generation, now);
        },
        None => {},
    }

    if record {
        prepend_history(&mut new_status, summary);
    }
    new_status
}

} // verus!
