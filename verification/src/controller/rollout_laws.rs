//! Properties of whole rollouts: what each phase change does to the status,
//! and how drift detection and cancellation follow the phases.
use vstd::prelude::*;

use super::canary::{
    spec_plan_promotion, spec_plan_rollback, spec_status_after_promotion, spec_status_after_rollback,
};
use super::cancellation::{spec_cancel_matches, spec_evaluate_cancellation, spec_status_after_cancellation, CancelOutcomeView};
use super::conditions::{spec_is_condition_true, without_type};
use super::crd::{HelmReleaseStatusView, RolloutPhase, RolloutStatusView, RolloutSummaryView, Slot};
use super::deploy::spec_status_after_initial_deploy;
use super::drift::{spec_detect_drift, DriftOutcomeView};
use super::error_handling::{spec_is_terminal, spec_status_after_error, ErrorPlanView};
use super::history::{spec_append_history, spec_summary};
use super::laws::{
    lemma_set_condition_adds_no_other_type, lemma_without_other_type_keeps_truth, lemma_without_type_excludes,
    law_set_condition_keeps_other_truth, law_set_condition_truth,
};
use super::slots::spec_slot_state;
use crate::time::Timestamp;

verus! {

/// The condition types that the rollout laws speak of are distinct.
proof fn lemma_condition_types_distinct()
    ensures
        "Available"@ != "CanaryInProgress"@,
        "RolloutFailed"@ != "CanaryInProgress"@,
        "Available"@ != "Reconciling"@,
        "Available"@ != "RolloutFailed"@,
        "CanaryInProgress"@ != "Reconciling"@,
        "Reconciling"@ != "RolloutFailed"@,
        "CanaryInProgress"@ != "RolloutFailed"@,
{
    reveal_strlit("Available");
    reveal_strlit("CanaryInProgress");
    reveal_strlit("RolloutFailed");
    reveal_strlit("Reconciling");
    assert("Available"@[0] != "CanaryInProgress"@[0]);
    assert("RolloutFailed"@[0] != "CanaryInProgress"@[0]);
    assert("Available"@[0] != "Reconciling"@[0]);
    assert("Available"@[0] != "RolloutFailed"@[0]);
    assert("CanaryInProgress"@[0] != "Reconciling"@[0]);
    assert("Reconciling"@.len() != "RolloutFailed"@.len());
}

/// No condition of type `t` is true when none has type `t`.
proof fn lemma_absent_not_true(cs: Seq<super::crd::ConditionView>, t: Seq<char>)
    requires
        forall|i: int| 0 <= i < cs.len() ==> #[trigger] cs[i].condition_type != t,
    ensures
        !spec_is_condition_true(cs, t),
{
}

/// Promoting a canary that has recorded state, from a baseline in the other
/// slot: the canary slot becomes active at its recorded version and keeps its
/// state, the baseline slot is forgotten, the rollout is Promoted at full
/// weight, Available is true, CanaryInProgress is not, and the rollout is
/// recorded before the earlier history.
pub proof fn law_promotion(s: HelmReleaseStatusView, r: RolloutStatusView, generation: Option<i64>, now: Timestamp)
    requires
        spec_plan_promotion(s, r) is Some,
        r.canary_slot != r.baseline_slot,
        spec_slot_state(s, r.canary_slot->0) is Some,
    ensures
        ({
            let plan = spec_plan_promotion(s, r)->0;
            let post = spec_status_after_promotion(s, plan, generation, now);
            &&& post.active_slot == Some(plan.canary_slot)
            &&& post.active_version == Some(spec_slot_state(s, plan.canary_slot)->0.version)
            &&& spec_slot_state(post, plan.canary_slot) == spec_slot_state(s, plan.canary_slot)
            &&& spec_slot_state(post, plan.baseline_slot) is None
            &&& post.rollout matches Some(ro) && ro.phase == RolloutPhase::Promoted && ro.canary_weight == Some(100u32)
                && ro.completed_at == Some(now) && ro.to_version == r.to_version
            &&& spec_is_condition_true(post.conditions, "Available"@)
            &&& !spec_is_condition_true(post.conditions, "CanaryInProgress"@)
            &&& post.history == seq![spec_summary(post.rollout->0, now)] + s.history
            &&& post.history[0].phase == RolloutPhase::Promoted
        }),
{
    lemma_condition_types_distinct();
    let plan = spec_plan_promotion(s, r)->0;
    let cs = without_type(s.conditions, "CanaryInProgress"@);
    lemma_without_type_excludes(s.conditions, "CanaryInProgress"@);
    let m = super::canary::promoted_condition_message(plan.to_version);
    law_set_condition_truth(cs, "Available"@, "True"@, Some("Promoted"@), Some(m), generation, now);
    lemma_set_condition_adds_no_other_type(cs, "Available"@, "CanaryInProgress"@, "True"@, Some("Promoted"@), Some(m), generation, now);
    let post = spec_status_after_promotion(s, plan, generation, now);
    lemma_absent_not_true(post.conditions, "CanaryInProgress"@);
}

/// Rolling back a canary in another slot than its baseline: the active slot
/// and version stay, the canary slot is forgotten, the baseline slot keeps
/// its state, the rollout is RolledBack at zero weight, RolloutFailed is true,
/// CanaryInProgress is not, and the rollout is recorded before the earlier
/// history.
pub proof fn law_rollback(s: HelmReleaseStatusView, r: RolloutStatusView, generation: Option<i64>, now: Timestamp)
    requires
        spec_plan_rollback(s, r) is Some,
        r.canary_slot != r.baseline_slot,
    ensures
        ({
            let plan = spec_plan_rollback(s, r)->0;
            let post = spec_status_after_rollback(s, plan, generation, now);
            &&& post.active_slot == s.active_slot
            &&& post.active_version == s.active_version
            &&& spec_slot_state(post, plan.canary_slot) is None
            &&& spec_slot_state(post, plan.baseline_slot) == spec_slot_state(s, plan.baseline_slot)
            &&& post.rollout matches Some(ro) && ro.phase == RolloutPhase::RolledBack && ro.canary_weight == Some(0u32)
                && ro.completed_at == Some(now)
            &&& spec_is_condition_true(post.conditions, "RolloutFailed"@)
            &&& !spec_is_condition_true(post.conditions, "CanaryInProgress"@)
            &&& post.history == seq![spec_summary(post.rollout->0, now)] + s.history
            &&& post.history[0].phase == RolloutPhase::RolledBack
        }),
{
    lemma_condition_types_distinct();
    let plan = spec_plan_rollback(s, r)->0;
    let cs = without_type(s.conditions, "CanaryInProgress"@);
    lemma_without_type_excludes(s.conditions, "CanaryInProgress"@);
    let m = super::canary::rolled_back_condition_message(plan.to_version);
    law_set_condition_truth(cs, "RolloutFailed"@, "True"@, Some("CanaryRollback"@), Some(m), generation, now);
    lemma_set_condition_adds_no_other_type(
        cs,
        "RolloutFailed"@,
        "CanaryInProgress"@,
        "True"@,
        Some("CanaryRollback"@),
        Some(m),
        generation,
        now,
    );
    let post = spec_status_after_rollback(s, plan, generation, now);
    lemma_absent_not_true(post.conditions, "CanaryInProgress"@);
}

/// Cancelling a rollout that names a version: the active slot and version
/// stay, the canary slot is forgotten, the rollout is Cancelled at zero
/// weight, neither CanaryInProgress nor Reconciling is true, whether
/// RolloutFailed is true is unchanged, Available is true when a version is
/// active, and the rollout is recorded before the earlier history.
pub proof fn law_cancellation(
    s: HelmReleaseStatusView,
    baseline_slot: Slot,
    canary_slot: Slot,
    generation: Option<i64>,
    now: Timestamp,
)
    requires
        s.rollout matches Some(r) && r.to_version.len() > 0,
    ensures
        ({
            let post = spec_status_after_cancellation(s, baseline_slot, canary_slot, generation, now);
            &&& post.active_slot == s.active_slot
            &&& post.active_version == s.active_version
            &&& spec_slot_state(post, canary_slot) is None
            &&& post.rollout matches Some(ro) && ro.phase == RolloutPhase::Cancelled && ro.canary_weight == Some(0u32)
                && ro.completed_at == Some(now)
            &&& !spec_is_condition_true(post.conditions, "CanaryInProgress"@)
            &&& !spec_is_condition_true(post.conditions, "Reconciling"@)
            &&& spec_is_condition_true(post.conditions, "RolloutFailed"@) == spec_is_condition_true(
                s.conditions,
                "RolloutFailed"@,
            )
            &&& s.active_version is Some ==> spec_is_condition_true(post.conditions, "Available"@)
            &&& post.history == seq![spec_summary(post.rollout->0, now)] + s.history
            &&& post.history[0].phase == RolloutPhase::Cancelled
        }),
{
    lemma_condition_types_distinct();
    let c0 = s.conditions;
    let c1 = without_type(c0, "CanaryInProgress"@);
    let c2 = without_type(c1, "Reconciling"@);
    lemma_without_type_excludes(c0, "CanaryInProgress"@);
    lemma_without_type_excludes(c1, "Reconciling"@);
    lemma_without_other_type_keeps_truth(c0, "CanaryInProgress"@, "RolloutFailed"@);
    lemma_without_other_type_keeps_truth(c1, "Reconciling"@, "RolloutFailed"@);
    let w2 = c2;
    assert forall|i: int| 0 <= i < w2.len() implies #[trigger] w2[i].condition_type != "CanaryInProgress"@ by {
        assert(w2.contains(w2[i]));
        c1.lemma_filter_contains_rev(|c: super::crd::ConditionView| c.condition_type != "Reconciling"@, w2[i]);
    }
    match s.active_version {
        Some(v) => {
            let m = super::cancellation::cancelled_condition_message(v);
            law_set_condition_truth(c2, "Available"@, "True"@, Some("Cancelled"@), Some(m), generation, now);
            lemma_set_condition_adds_no_other_type(
                c2,
                "Available"@,
                "CanaryInProgress"@,
                "True"@,
                Some("Cancelled"@),
                Some(m),
                generation,
                now,
            );
            lemma_set_condition_adds_no_other_type(
                c2,
                "Available"@,
                "Reconciling"@,
                "True"@,
                Some("Cancelled"@),
                Some(m),
                generation,
                now,
            );
            law_set_condition_keeps_other_truth(
                c2,
                "Available"@,
                "RolloutFailed"@,
                "True"@,
                Some("Cancelled"@),
                Some(m),
                generation,
                now,
            );
        },
        None => {},
    }
    let post = spec_status_after_cancellation(s, baseline_slot, canary_slot, generation, now);
    lemma_absent_not_true(post.conditions, "CanaryInProgress"@);
    lemma_absent_not_true(post.conditions, "Reconciling"@);
}

/// An error moves the rollout to Errored at zero weight, forgets the canary
/// slot when the plan names one, makes RolloutFailed true and
/// CanaryInProgress not, and keeps the active slot and version.
pub proof fn law_error(s: HelmReleaseStatusView, plan: ErrorPlanView, generation: Option<i64>, now: Timestamp)
    ensures
        ({
            let post = spec_status_after_error(s, plan, generation, now);
            &&& post.active_slot == s.active_slot
            &&& post.active_version == s.active_version
            &&& plan.canary_slot matches Some(cs) ==> spec_slot_state(post, cs) is None
            &&& post.rollout matches Some(ro) && ro.phase == RolloutPhase::Errored && ro.canary_weight == Some(0u32)
                && ro.completed_at == Some(now) && ro.message == Some(plan.message)
            &&& spec_is_condition_true(post.conditions, "RolloutFailed"@)
            &&& !spec_is_condition_true(post.conditions, "CanaryInProgress"@)
        }),
{
    lemma_condition_types_distinct();
    let cs = without_type(s.conditions, "CanaryInProgress"@);
    lemma_without_type_excludes(s.conditions, "CanaryInProgress"@);
    let reason = plan.reason.spec_condition_reason();
    law_set_condition_truth(cs, "RolloutFailed"@, "True"@, Some(reason), Some(plan.message), generation, now);
    lemma_set_condition_adds_no_other_type(
        cs,
        "RolloutFailed"@,
        "CanaryInProgress"@,
        "True"@,
        Some(reason),
        Some(plan.message),
        generation,
        now,
    );
    let post = spec_status_after_error(s, plan, generation, now);
    lemma_absent_not_true(post.conditions, "CanaryInProgress"@);
}

/// After a first install the slot is active at the installed version and
/// holds the release, Available is true and the history is empty.
pub proof fn law_initial_deploy(
    slot: Slot,
    release_name: Seq<char>,
    version: Seq<char>,
    generation: Option<i64>,
    now: Timestamp,
)
    ensures
        ({
            let post = spec_status_after_initial_deploy(slot, release_name, version, generation, now);
            &&& post.active_slot == Some(slot)
            &&& post.active_version == Some(version)
            &&& spec_slot_state(post, slot) matches Some(st) && st.version == version && st.release_name == release_name
            &&& spec_slot_state(post, slot.spec_other()) is None
            &&& spec_is_condition_true(post.conditions, "Available"@)
            &&& post.history.len() == 0
        }),
{
    law_set_condition_truth(
        Seq::empty(),
        "Available"@,
        "True"@,
        Some("InitialDeployComplete"@),
        Some("Version "@ + version + " deployed"@),
        generation,
        now,
    );
}

/// Once the installed version is the desired one, nothing drifts.
pub proof fn law_in_sync_after_initial_deploy(
    slot: Slot,
    release_name: Seq<char>,
    version: Seq<char>,
    generation: Option<i64>,
    now: Timestamp,
)
    ensures
        spec_detect_drift(
            Some(version),
            Some(spec_status_after_initial_deploy(slot, release_name, version, generation, now)),
        ) == DriftOutcomeView::InSync,
{
}

/// While a rollout is in progress, no new rollout starts, whatever the
/// desired version.
pub proof fn law_rollout_in_progress_blocks_drift(target: Seq<char>, s: HelmReleaseStatusView)
    requires
        s.rollout matches Some(r) && r.phase == RolloutPhase::InProgress,
    ensures
        spec_detect_drift(Some(target), Some(s)) == (DriftOutcomeView::RolloutInProgress {
            phase: RolloutPhase::InProgress,
        }),
{
}

/// Once a canary holding the desired version is promoted, nothing drifts.
pub proof fn law_in_sync_after_promotion(
    s: HelmReleaseStatusView,
    r: RolloutStatusView,
    generation: Option<i64>,
    now: Timestamp,
)
    requires
        spec_plan_promotion(s, r) is Some,
        r.canary_slot != r.baseline_slot,
        spec_slot_state(s, r.canary_slot->0) matches Some(st) && st.version == r.to_version,
    ensures
        spec_detect_drift(
            Some(r.to_version),
            Some(spec_status_after_promotion(s, spec_plan_promotion(s, r)->0, generation, now)),
        ) == DriftOutcomeView::InSync,
{
    law_promotion(s, r, generation, now);
}

/// A request to cancel a finished rollout is rejected, naming its phase.
pub proof fn law_cancel_finished_rollout_rejected(value: Seq<char>, s: HelmReleaseStatusView)
    requires
        s.rollout matches Some(r) && spec_is_terminal(r.phase),
    ensures
        spec_evaluate_cancellation(Some(value), s) == (CancelOutcomeView::AlreadyTerminal {
            phase: s.rollout->0.phase,
        }),
{
}

/// For a rollout in progress with both slots named and the canary recorded,
/// a cancellation proceeds exactly when its value is `true` or the rollout's
/// identifier, and is rejected as a mismatch otherwise.
pub proof fn law_cancel_acceptance(value: Seq<char>, s: HelmReleaseStatusView)
    requires
        s.rollout matches Some(r) && r.phase == RolloutPhase::InProgress && r.canary_slot is Some
            && r.baseline_slot is Some && spec_slot_state(s, r.canary_slot->0) is Some,
    ensures
        (spec_evaluate_cancellation(Some(value), s) is Cancel) == spec_cancel_matches(value, s.rollout->0),
        !spec_cancel_matches(value, s.rollout->0) ==> spec_evaluate_cancellation(Some(value), s) is RolloutIdMismatch,
{
}

/// Appending to the history puts the new entry first, shifts the earlier
/// entries down by one, and keeps at most `max_entries` of them.
pub proof fn law_append_history(h: Seq<RolloutSummaryView>, entry: RolloutSummaryView, max_entries: nat)
    ensures
        ({
            let r = spec_append_history(h, entry, max_entries);
            &&& r.len() == if h.len() + 1 <= max_entries {
                h.len() + 1
            } else {
                max_entries
            }
            &&& max_entries > 0 ==> r[0] == entry
            &&& forall|i: int| 0 < i < r.len() ==> #[trigger] r[i] == h[i - 1]
        }),
{
}

} // verus!
