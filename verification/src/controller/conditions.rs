//! Kubernetes-style conditions on the HelmRelease status.
use vstd::prelude::*;

use super::crd::{Condition, ConditionView, HelmReleaseStatus, HelmReleaseStatusView};
use crate::text::str_eq;
use crate::time::Timestamp;

verus! {

// ---------------------------------------------------------------------------
// Well-known condition types and statuses
// ---------------------------------------------------------------------------

pub const CONDITION_AVAILABLE: &'static str = "Available";
pub const CONDITION_CANARY_IN_PROGRESS: &'static str = "CanaryInProgress";
pub const CONDITION_ROLLOUT_FAILED: &'static str = "RolloutFailed";
pub const CONDITION_RECONCILING: &'static str = "Reconciling";

pub const STATUS_TRUE: &'static str = "True";
pub const STATUS_FALSE: &'static str = "False";
pub const STATUS_UNKNOWN: &'static str = "Unknown";

// ---------------------------------------------------------------------------
// Model
// ---------------------------------------------------------------------------

/// The first condition of type `t`, if any.
pub open spec fn find_condition(cs: Seq<ConditionView>, t: Seq<char>) -> Option<ConditionView>
    decreases cs.len(),
{
    if cs.len() == 0 {
        None
    } else if cs[0].condition_type == t {
        Some(cs[0])
    } else {
        find_condition(cs.drop_first(), t)
    }
}

/// The conditions of a type other than `t`, in their order.
pub open spec fn without_type(cs: Seq<ConditionView>, t: Seq<char>) -> Seq<ConditionView> {
    cs.filter(|c: ConditionView| c.condition_type != t)
}

/// Whether some condition of type `t` has status `True`.
pub open spec fn spec_is_condition_true(cs: Seq<ConditionView>, t: Seq<char>) -> bool {
    exists|i: int| 0 <= i < cs.len() && #[trigger] cs[i].condition_type == t && cs[i].status == "True"@
}

/// The conditions after setting a condition of type `t`: every condition of
/// that type is dropped and the new one is appended. Its transition time is
/// kept from the first old condition of that type when the status is
/// unchanged, and is `now` otherwise.
pub open spec fn spec_set_condition(
    cs: Seq<ConditionView>,
    t: Seq<char>,
    status: Seq<char>,
    reason: Option<Seq<char>>,
    message: Option<Seq<char>>,
    observed_generation: Option<i64>,
    now: Timestamp,
) -> Seq<ConditionView> {
    let last_transition_time = match find_condition(cs, t) {
        Some(prev) => if prev.status == status {
            prev.last_transition_time
        } else {
            now
        },
        None => now,
    };
    without_type(cs, t).push(
        ConditionView {
            condition_type: t,
            status,
            reason,
            message,
            last_transition_time,
            observed_generation,
        },
    )
}

/// A status model with its conditions replaced.
pub open spec fn with_conditions(s: HelmReleaseStatusView, cs: Seq<ConditionView>) -> HelmReleaseStatusView {
    HelmReleaseStatusView { conditions: cs, ..s }
}

/// The view of an optional string slice.
pub open spec fn opt_str_view(o: Option<&str>) -> Option<Seq<char>> {
    match o {
        Some(s) => Some(s@),
        None => None,
    }
}

proof fn lemma_find_condition_skip(cs: Seq<ConditionView>, t: Seq<char>, i: int)
    requires
        0 <= i < cs.len(),
        cs[i].condition_type != t,
    ensures
        find_condition(cs.skip(i), t) == find_condition(cs.skip(i + 1), t),
{
    assert(cs.skip(i).drop_first() =~= cs.skip(i + 1));
}

// ---------------------------------------------------------------------------
// Condition helpers
// ---------------------------------------------------------------------------

/// Find a condition by type.
pub fn get_condition<'a>(status: &'a HelmReleaseStatus, condition_type: &str) -> (r: Option<&'a Condition>)
    ensures
        r.deep_view() == find_condition(status@.conditions, condition_type@),
{
    let ghost cs = status@.conditions;
    let mut i: usize = 0;
    assert(cs.skip(0) =~= cs);
    while i < status.conditions.len()
        invariant
            0 <= i <= status.conditions.len(),
            cs == status@.conditions,
            find_condition(cs, condition_type@) == find_condition(cs.skip(i as int), condition_type@),
        decreases status.conditions.len() - i,
    {
        if str_eq(status.conditions[i].condition_type.as_str(), condition_type) {
            assert(cs.skip(i as int)[0] == cs[i as int]);
            return Some(&status.conditions[i]);
        }
        proof {
            lemma_find_condition_skip(cs, condition_type@, i as int);
        }
        i = i + 1;
    }
    assert(cs.skip(i as int).len() == 0);
    None
}

/// Query whether a condition of the given type exists with `status == "True"`.
pub fn is_condition_true(status: &HelmReleaseStatus, condition_type: &str) -> (r: bool)
    ensures
        r == spec_is_condition_true(status@.conditions, condition_type@),
{
    let ghost cs = status@.conditions;
    let mut i: usize = 0;
    while i < status.conditions.len()
        invariant
            0 <= i <= status.conditions.len(),
            cs == status@.conditions,
            forall|j: int| 0 <= j < i ==> !(#[trigger] cs[j].condition_type == condition_type@ && cs[j].status == "True"@),
        decreases status.conditions.len() - i,
    {
        let c = &status.conditions[i];
        if str_eq(c.condition_type.as_str(), condition_type) && str_eq(c.status.as_str(), STATUS_TRUE) {
            assert(cs[i as int].condition_type == condition_type@);
            return true;
        }
        i = i + 1;
    }
    false
}

/// The conditions of `cs` whose type is not `t`, copied.
fn conditions_without_type(cs: &Vec<Condition>, t: &str) -> (r: Vec<Condition>)
    ensures
        r.deep_view() == without_type(cs.deep_view(), t@),
{
    let ghost pred = |c: ConditionView| c.condition_type != t@;
    let mut r: Vec<Condition> = Vec::new();
    let mut i: usize = 0;
    while i < cs.len()
        invariant
            0 <= i <= cs.len(),
            r.deep_view() == cs.deep_view().take(i as int).filter(pred),
            pred == (|c: ConditionView| c.condition_type != t@),
        decreases cs.len() - i,
    {
        let ghost before = cs.deep_view().take(i as int);
        let ghost old_r = r.deep_view();
        let keep = !str_eq(cs[i].condition_type.as_str(), t);
        if keep {
            r.push(cs[i].clone());
        }
        proof {
            let x = cs.deep_view()[i as int];
            assert(cs.deep_view().take(i + 1) =~= before.push(x));
            before.lemma_filter_push(x, pred);
            assert(keep == pred(x));
            if keep {
                assert(r.deep_view() =~= old_r.push(x));
            } else {
                assert(r.deep_view() =~= old_r);
            }
        }
        i = i + 1;
    }
    assert(cs.deep_view().take(cs.len() as int) =~= cs.deep_view());
    r
}

/// Set (or update) a condition on the status. If a condition with the same
/// type already exists, it is replaced. `last_transition_time` is only updated
/// when the `status` value actually changes.
pub fn set_condition(
    status: &mut HelmReleaseStatus,
    condition_type: &str,
    condition_status: &str,
    reason: Option<&str>,
    message: Option<&str>,
    observed_generation: Option<i64>,
    now: Timestamp,
)
    ensures
        final(status)@ == with_conditions(
            old(status)@,
            spec_set_condition(
                old(status)@.conditions,
                condition_type@,
                condition_status@,
                opt_str_view(reason),
                opt_str_view(message),
                observed_generation,
                now,
            ),
        ),
{
    let last_transition_time = match get_condition(status, condition_type) {
        Some(prev) => if str_eq(prev.status.as_str(), condition_status) {
            prev.last_transition_time
        } else {
            now
        },
        None => now,
    };
    let mut kept = conditions_without_type(&status.conditions, condition_type);
    let new_condition = Condition {
        condition_type: condition_type.to_owned(),
        status: condition_status.to_owned(),
        reason: match reason {
            Some(r) => Some(r.to_owned()),
            None => None,
        },
        message: match message {
            Some(m) => Some(m.to_owned()),
            None => None,
        },
        last_transition_time,
        observed_generation,
    };
    kept.push(new_condition);
    proof {
        assert(kept.deep_view() =~= spec_set_condition(
            old(status)@.conditions,
            condition_type@,
            condition_status@,
            opt_str_view(reason),
            opt_str_view(message),
            observed_generation,
            now,
        ));
    }
    status.conditions = kept;
}

/// Remove a condition by type, if present.
pub fn clear_condition(status: &mut HelmReleaseStatus, condition_type: &str)
    ensures
        final(status)@ == with_conditions(old(status)@, without_type(old(status)@.conditions, condition_type@)),
{
    let kept = conditions_without_type(&status.conditions, condition_type);
    status.conditions = kept;
}


// ---------------------------------------------------------------------------
// Convenience setters
// ---------------------------------------------------------------------------

/// The status model after setting condition `t` to `status` with the given
/// reason and message.
pub open spec fn status_with_condition(
    s: HelmReleaseStatusView,
    t: Seq<char>,
    status: Seq<char>,
    reason: Seq<char>,
    message: Seq<char>,
    generation: Option<i64>,
    now: Timestamp,
) -> HelmReleaseStatusView {
    with_conditions(s, spec_set_condition(s.conditions, t, status, Some(reason), Some(message), generation, now))
}

/// The status model after removing every condition of type `t`.
pub open spec fn status_without_condition(s: HelmReleaseStatusView, t: Seq<char>) -> HelmReleaseStatusView {
    with_conditions(s, without_type(s.conditions, t))
}

/// Mark the HelmRelease as available.
pub fn set_available(
    status: &mut HelmReleaseStatus,
    reason: &str,
    message: &str,
    generation: Option<i64>,
    now: Timestamp,
)
    ensures
        final(status)@ == status_with_condition(old(status)@, "Available"@, "True"@, reason@, message@, generation, now),
{
    set_condition(status, CONDITION_AVAILABLE, STATUS_TRUE, Some(reason), Some(message), generation, now);
}

/// Mark the HelmRelease as unavailable.
pub fn set_unavailable(
    status: &mut HelmReleaseStatus,
    reason: &str,
    message: &str,
    generation: Option<i64>,
    now: Timestamp,
)
    ensures
        final(status)@ == status_with_condition(old(status)@, "Available"@, "False"@, reason@, message@, generation, now),
{
    set_condition(status, CONDITION_AVAILABLE, STATUS_FALSE, Some(reason), Some(message), generation, now);
}

/// Mark a canary rollout as in progress.
pub fn set_canary_in_progress(
    status: &mut HelmReleaseStatus,
    reason: &str,
    message: &str,
    generation: Option<i64>,
    now: Timestamp,
)
    ensures
        final(status)@ == status_with_condition(old(status)@, "CanaryInProgress"@, "True"@, reason@, message@, generation, now),
{
    set_condition(status, CONDITION_CANARY_IN_PROGRESS, STATUS_TRUE, Some(reason), Some(message), generation, now);
}

/// Clear the canary-in-progress condition.
pub fn clear_canary_in_progress(status: &mut HelmReleaseStatus)
    ensures
        final(status)@ == status_without_condition(old(status)@, "CanaryInProgress"@),
{
    clear_condition(status, CONDITION_CANARY_IN_PROGRESS);
}

/// Mark the rollout as failed.
pub fn set_rollout_failed(
    status: &mut HelmReleaseStatus,
    reason: &str,
    message: &str,
    generation: Option<i64>,
    now: Timestamp,
)
    ensures
        final(status)@ == status_with_condition(old(status)@, "RolloutFailed"@, "True"@, reason@, message@, generation, now),
{
    set_condition(status, CONDITION_ROLLOUT_FAILED, STATUS_TRUE, Some(reason), Some(message), generation, now);
}

/// Clear the rollout-failed condition.
pub fn clear_rollout_failed(status: &mut HelmReleaseStatus)
    ensures
        final(status)@ == status_without_condition(old(status)@, "RolloutFailed"@),
{
    clear_condition(status, CONDITION_ROLLOUT_FAILED);
}

/// Mark the controller as reconciling.
pub fn set_reconciling(
    status: &mut HelmReleaseStatus,
    reason: &str,
    message: &str,
    generation: Option<i64>,
    now: Timestamp,
)
    ensures
        final(status)@ == status_with_condition(old(status)@, "Reconciling"@, "True"@, reason@, message@, generation, now),
{
    set_condition(status, CONDITION_RECONCILING, STATUS_TRUE, Some(reason), Some(message), generation, now);
}

/// Clear the reconciling condition.
pub fn clear_reconciling(status: &mut HelmReleaseStatus)
    ensures
        final(status)@ == status_without_condition(old(status)@, "Reconciling"@),
{
    clear_condition(status, CONDITION_RECONCILING);
}

} // verus!
