//! Rollout history: completed rollouts, most recent first.
use vstd::prelude::*;

use super::crd::{
    clone_opt_string, HelmReleaseStatus, HelmReleaseStatusView, RolloutPhase, RolloutStatus,
    RolloutStatusView, RolloutSummary, RolloutSummaryView,
};
use crate::text::str_eq;
use crate::time::Timestamp;

verus! {

/// Default maximum number of history entries to retain.
pub const DEFAULT_MAX_HISTORY: usize = 10;

/// The history entry recording `r` as completed at `completed_at`; a rollout
/// without a start time is taken to have started when it completed.
pub open spec fn spec_summary(r: RolloutStatusView, completed_at: Timestamp) -> RolloutSummaryView {
    RolloutSummaryView {
        phase: r.phase,
        from_version: r.from_version,
        to_version: r.to_version,
        started_at: match r.started_at {
            Some(t) => t,
            None => completed_at,
        },
        completed_at,
        message: r.message,
    }
}

/// The history with `entry` placed first and at most `max_entries` entries kept.
pub open spec fn spec_append_history(
    history: Seq<RolloutSummaryView>,
    entry: RolloutSummaryView,
    max_entries: nat,
) -> Seq<RolloutSummaryView> {
    let h = seq![entry] + history;
    if h.len() > max_entries {
        h.take(max_entries as int)
    } else {
        h
    }
}

/// A status model with its history replaced.
pub open spec fn with_history(s: HelmReleaseStatusView, h: Seq<RolloutSummaryView>) -> HelmReleaseStatusView {
    HelmReleaseStatusView { history: h, ..s }
}

/// Build the history entry for `rollout` completed at `completed_at`.
pub(crate) fn summary_of(rollout: &RolloutStatus, completed_at: Timestamp) -> (r: RolloutSummary)
    ensures
        r@ == spec_summary(rollout@, completed_at),
{
    RolloutSummary {
        phase: rollout.phase,
        from_version: clone_opt_string(&rollout.from_version),
        to_version: rollout.to_version.clone(),
        started_at: match rollout.started_at {
            Some(t) => t,
            None => completed_at,
        },
        completed_at,
        message: clone_opt_string(&rollout.message),
    }
}

/// Put `entry` first in the history of `status`.
pub(crate) fn prepend_history(status: &mut HelmReleaseStatus, entry: RolloutSummary)
    ensures
        final(status)@ == with_history(old(status)@, seq![entry@] + old(status)@.history),
{
    let ghost old_h = status.history@;
    status.history.insert(0, entry);
    assert(status.history.deep_view() =~= seq![entry@] + old(status)@.history) by {
        assert(status.history@ == old_h.insert(0, entry));
    }
}

/// Append a completed rollout to the status history.
///
/// The new entry is prepended (most recent first). If the history exceeds
/// `max_entries`, the oldest entries are evicted.
pub fn append_history(
    status: &mut HelmReleaseStatus,
    rollout: &RolloutStatus,
    completed_at: Timestamp,
    max_entries: usize,
)
    ensures
        final(status)@ == with_history(
            old(status)@,
            spec_append_history(old(status)@.history, spec_summary(rollout@, completed_at), max_entries as nat),
        ),
{
    let summary = summary_of(rollout, completed_at);
    prepend_history(status, summary);
    let ghost before = status.history@;
    if status.history.len() > max_entries {
        status.history.truncate(max_entries);
        assert(status.history.deep_view() =~= (seq![spec_summary(rollout@, completed_at)] + old(status)@.history).take(max_entries as int));
    }
}


/// The first (most recent) entry of `h` with phase `phase`, if any.
pub open spec fn find_with_phase(h: Seq<RolloutSummaryView>, phase: RolloutPhase) -> Option<RolloutSummaryView>
    decreases h.len(),
{
    if h.len() == 0 {
        None
    } else if h[0].phase == phase {
        Some(h[0])
    } else {
        find_with_phase(h.drop_first(), phase)
    }
}

/// The entries of `h` that rolled out `version`.
pub open spec fn attempts_of(h: Seq<RolloutSummaryView>, version: Seq<char>) -> Seq<RolloutSummaryView> {
    h.filter(|e: RolloutSummaryView| e.to_version == version)
}

/// Query the most recent rollout summary.
pub fn latest_rollout(status: &HelmReleaseStatus) -> (r: Option<&RolloutSummary>)
    ensures
        r.deep_view() == (if status@.history.len() == 0 {
            None
        } else {
            Some(status@.history[0])
        }),
{
    if status.history.len() == 0 {
        None
    } else {
        Some(&status.history[0])
    }
}

/// Query the most recent rollout of a specific phase.
pub fn latest_rollout_with_phase(status: &HelmReleaseStatus, phase: RolloutPhase) -> (r: Option<&RolloutSummary>)
    ensures
        r.deep_view() == find_with_phase(status@.history, phase),
{
    let ghost h = status@.history;
    let mut i: usize = 0;
    assert(h.skip(0) =~= h);
    while i < status.history.len()
        invariant
            0 <= i <= status.history.len(),
            h == status@.history,
            find_with_phase(h, phase) == find_with_phase(h.skip(i as int), phase),
        decreases status.history.len() - i,
    {
        if status.history[i].phase == phase {
            assert(h.skip(i as int)[0] == h[i as int]);
            return Some(&status.history[i]);
        }
        assert(h.skip(i as int).drop_first() =~= h.skip(i + 1));
        i = i + 1;
    }
    assert(h.skip(i as int).len() == 0);
    None
}

/// Query the last successfully promoted version from history.
pub fn last_promoted_version(status: &HelmReleaseStatus) -> (r: Option<&str>)
    ensures
        match r {
            Some(v) => find_with_phase(status@.history, RolloutPhase::Promoted) matches Some(e)
                && v@ == e.to_version,
            None => find_with_phase(status@.history, RolloutPhase::Promoted) is None,
        },
{
    match latest_rollout_with_phase(status, RolloutPhase::Promoted) {
        Some(s) => Some(s.to_version.as_str()),
        None => None,
    }
}

/// Check if a version was previously rolled back.
pub fn was_rolled_back(status: &HelmReleaseStatus, version: &str) -> (r: bool)
    ensures
        r == exists|i: int|
            0 <= i < status@.history.len() && #[trigger] status@.history[i].phase == RolloutPhase::RolledBack
                && status@.history[i].to_version == version@,
{
    let ghost h = status@.history;
    let mut i: usize = 0;
    while i < status.history.len()
        invariant
            0 <= i <= status.history.len(),
            h == status@.history,
            forall|j: int|
                0 <= j < i ==> !(#[trigger] h[j].phase == RolloutPhase::RolledBack && h[j].to_version == version@),
        decreases status.history.len() - i,
    {
        let e = &status.history[i];
        if e.phase == RolloutPhase::RolledBack && str_eq(e.to_version.as_str(), version) {
            assert(h[i as int].phase == RolloutPhase::RolledBack);
            return true;
        }
        i = i + 1;
    }
    false
}

/// Count how many times a version has been attempted (any terminal phase).
pub fn attempt_count(status: &HelmReleaseStatus, version: &str) -> (r: usize)
    ensures
        r == attempts_of(status@.history, version@).len(),
{
    let ghost h = status@.history;
    let ghost pred = |e: RolloutSummaryView| e.to_version == version@;
    let mut count: usize = 0;
    let mut i: usize = 0;
    while i < status.history.len()
        invariant
            0 <= i <= status.history.len(),
            h == status@.history,
            pred == (|e: RolloutSummaryView| e.to_version == version@),
            count == h.take(i as int).filter(pred).len(),
            count <= i,
        decreases status.history.len() - i,
    {
        proof {
            assert(h.take(i + 1) =~= h.take(i as int).push(h[i as int]));
            h.take(i as int).lemma_filter_push(h[i as int], pred);
        }
        if str_eq(status.history[i].to_version.as_str(), version) {
            count = count + 1;
        }
        i = i + 1;
    }
    assert(h.take(i as int) =~= h);
    count
}

} // verus!
