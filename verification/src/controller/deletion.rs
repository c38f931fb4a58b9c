//! Deletion: the finalizer and the cleanup of releases and routes.
use vstd::prelude::*;

use super::crd::{HelmRelease, HelmReleaseView, RolloutPhase, Slot};
use super::slots::{get_slot_state, release_name, spec_release_name, spec_slot_state};
use crate::text::str_eq;

verus! {

/// The finalizer added to HelmRelease resources to ensure cleanup runs.
pub const FINALIZER: &'static str = "multitool.io/cleanup";

/// Check whether the HelmRelease is being deleted (has a `deletionTimestamp`).
pub fn is_being_deleted(hr: &HelmRelease) -> (r: bool)
    ensures
        r == hr@.metadata.deletion_timestamp is Some,
{
    hr.metadata.deletion_timestamp.is_some()
}

/// The finalizers of a resource model, an absent list being empty.
pub open spec fn finalizer_list(hr: HelmReleaseView) -> Seq<Seq<char>> {
    match hr.metadata.finalizers {
        Some(f) => f,
        None => Seq::empty(),
    }
}

/// Whether `list` holds the string `s`, scanning it.
fn list_contains(list: &Vec<String>, s: &str) -> (r: bool)
    ensures
        r == list.deep_view().contains(s@),
{
    let ghost l = list.deep_view();
    let mut i: usize = 0;
    while i < list.len()
        invariant
            0 <= i <= list.len(),
            l == list.deep_view(),
            forall|j: int| 0 <= j < i ==> l[j] != s@,
        decreases list.len() - i,
    {
        if str_eq(list[i].as_str(), s) {
            assert(l[i as int] == s@);
            return true;
        }
        i = i + 1;
    }
    false
}

/// Check whether the HelmRelease has our finalizer.
pub fn has_finalizer(hr: &HelmRelease) -> (r: bool)
    ensures
        r == finalizer_list(hr@).contains("multitool.io/cleanup"@),
{
    match &hr.metadata.finalizers {
        Some(f) => list_contains(f, FINALIZER),
        None => false,
    }
}

/// Copy a list of strings.
fn copy_strings(list: &Vec<String>) -> (r: Vec<String>)
    ensures
        r.deep_view() == list.deep_view(),
{
    let r = list.clone();
    proof {
        assert(r.deep_view() =~= list.deep_view());
    }
    r
}

/// The finalizers after adding ours: unchanged if present, appended otherwise.
pub open spec fn spec_add_finalizer(list: Seq<Seq<char>>) -> Seq<Seq<char>> {
    if list.contains("multitool.io/cleanup"@) {
        list
    } else {
        list.push("multitool.io/cleanup"@)
    }
}

/// Return the list of finalizers with ours added (if not already present).
pub fn add_finalizer(hr: &HelmRelease) -> (r: Vec<String>)
    ensures
        r.deep_view() == spec_add_finalizer(finalizer_list(hr@)),
{
    let mut finalizers = match &hr.metadata.finalizers {
        Some(f) => copy_strings(f),
        None => Vec::new(),
    };
    assert(finalizers.deep_view() =~= finalizer_list(hr@));
    if !list_contains(&finalizers, FINALIZER) {
        let ghost before = finalizers.deep_view();
        finalizers.push(FINALIZER.to_owned());
        assert(finalizers.deep_view() =~= before.push("multitool.io/cleanup"@));
    }
    finalizers
}

/// The finalizers after removing ours, every other one kept in order.
pub open spec fn spec_remove_finalizer(list: Seq<Seq<char>>) -> Seq<Seq<char>> {
    list.filter(|f: Seq<char>| f != "multitool.io/cleanup"@)
}

/// Return the list of finalizers with ours removed.
pub fn remove_finalizer(hr: &HelmRelease) -> (r: Vec<String>)
    ensures
        r.deep_view() == spec_remove_finalizer(finalizer_list(hr@)),
{
    let mut r: Vec<String> = Vec::new();
    let empty: Vec<String> = Vec::new();
    let list = match &hr.metadata.finalizers {
        Some(f) => f,
        None => &empty,
    };
    let ghost l = list.deep_view();
    let ghost pred = |f: Seq<char>| f != "multitool.io/cleanup"@;
    assert(l == finalizer_list(hr@)) by {
        assert(empty.deep_view() =~= Seq::<Seq<char>>::empty());
    }
    let mut i: usize = 0;
    while i < list.len()
        invariant
            0 <= i <= list.len(),
            l == list.deep_view(),
            pred == (|f: Seq<char>| f != "multitool.io/cleanup"@),
            r.deep_view() == l.take(i as int).filter(pred),
        decreases list.len() - i,
    {
        let ghost old_r = r.deep_view();
        let keep = !str_eq(list[i].as_str(), FINALIZER);
        if keep {
            r.push(list[i].clone());
        }
        proof {
            assert(l.take(i + 1) =~= l.take(i as int).push(l[i as int]));
            l.take(i as int).lemma_filter_push(l[i as int], pred);
            if keep {
                assert(r.deep_view() =~= old_r.push(l[i as int]));
            } else {
                assert(r.deep_view() =~= old_r);
            }
        }
        i = i + 1;
    }
    assert(l.take(i as int) =~= l);
    r
}

/// What needs to be cleaned up during deletion.
#[derive(Debug, Clone, PartialEq, Eq)]
pub struct CleanupPlan {
    /// Helm releases to uninstall, with their slots.
    pub releases_to_uninstall: Vec<(Slot, String)>,
    /// Whether an active rollout needs to be cancelled first.
    pub cancel_rollout: bool,
    /// Whether to delete the HTTPRoute.
    pub delete_route: bool,
    /// The namespace of the HelmRelease.
    pub namespace: String,
}

/// The releases of a resource model to uninstall: those recorded for Red
/// then Black; with none recorded, the release named after the active slot.
pub open spec fn spec_releases_to_uninstall(hr: HelmReleaseView) -> Seq<(Slot, Seq<char>)> {
    match hr.status {
        None => Seq::empty(),
        Some(s) => {
            let red = match spec_slot_state(s, Slot::Red) {
                Some(st) => seq![(Slot::Red, st.release_name)],
                None => Seq::empty(),
            };
            let black = match spec_slot_state(s, Slot::Black) {
                Some(st) => seq![(Slot::Black, st.release_name)],
                None => Seq::empty(),
            };
            let recorded = red + black;
            if recorded.len() == 0 {
                match s.active_slot {
                    Some(active) => seq![
                        (
                            active,
                            spec_release_name(
                                match hr.metadata.name {
                                    Some(n) => n,
                                    None => Seq::empty(),
                                },
                                active,
                            ),
                        ),
                    ],
                    None => Seq::empty(),
                }
            } else {
                recorded
            }
        },
    }
}

/// Whether the resource model has a rollout in progress.
pub open spec fn spec_rollout_in_progress(hr: HelmReleaseView) -> bool {
    hr.status matches Some(s) && s.rollout matches Some(r) && r.phase == RolloutPhase::InProgress
}

/// Build a cleanup plan from the current HelmRelease state.
pub fn plan_cleanup(hr: &HelmRelease) -> (r: CleanupPlan)
    ensures
        r.releases_to_uninstall.deep_view() == spec_releases_to_uninstall(hr@),
        r.cancel_rollout == spec_rollout_in_progress(hr@),
        r.delete_route == hr@.routing_configured,
        r.namespace@ == match hr@.metadata.namespace {
            Some(ns) => ns,
            None => "default"@,
        },
{
    let namespace = match &hr.metadata.namespace {
        Some(ns) => ns.clone(),
        None => "default".to_owned(),
    };
    let base_name = match &hr.metadata.name {
        Some(n) => n.as_str(),
        None => "",
    };
    let mut releases: Vec<(Slot, String)> = Vec::new();
    let mut cancel_rollout = false;
    match &hr.status {
        Some(status) => {
            match get_slot_state(status, Slot::Red) {
                Some(st) => releases.push((Slot::Red, st.release_name.clone())),
                None => {},
            }
            let ghost after_red = releases.deep_view();
            match get_slot_state(status, Slot::Black) {
                Some(st) => releases.push((Slot::Black, st.release_name.clone())),
                None => {},
            }
            proof {
                let s = status@;
                let red = match spec_slot_state(s, Slot::Red) {
                    Some(st) => seq![(Slot::Red, st.release_name)],
                    None => Seq::<(Slot, Seq<char>)>::empty(),
                };
                assert(after_red =~= red);
                let black = match spec_slot_state(s, Slot::Black) {
                    Some(st) => seq![(Slot::Black, st.release_name)],
                    None => Seq::<(Slot, Seq<char>)>::empty(),
                };
                assert(releases.deep_view() =~= red + black);
            }
            if releases.len() == 0 {
                match status.active_slot {
                    Some(active) => {
                        releases.push((active, release_name(base_name, active)));
                        assert(releases.deep_view() =~= seq![(active, spec_release_name(base_name@, active))]);
                    },
                    None => {},
                }
            }
            cancel_rollout = match &status.rollout {
                Some(r) => r.phase == RolloutPhase::InProgress,
                None => false,
            };
        },
        None => {
            assert(releases.deep_view() =~= Seq::<(Slot, Seq<char>)>::empty());
        },
    }
    assert(base_name@ == match hr@.metadata.name {
        Some(n) => n,
        None => Seq::<char>::empty(),
    }) by {
        reveal_strlit("");
    }
    CleanupPlan { releases_to_uninstall: releases, cancel_rollout, delete_route: hr.spec.routing.is_some(), namespace }
}


/// Result of the cleanup process.
#[derive(Debug, Clone, PartialEq, Eq)]
pub struct CleanupResult {
    /// Whether all releases were uninstalled successfully.
    pub all_releases_cleaned: bool,
    /// Whether the route was deleted successfully.
    pub route_cleaned: bool,
    /// Warnings encountered during cleanup (non-fatal).
    pub warnings: Vec<String>,
}

/// The warning for a release that could not be uninstalled.
pub open spec fn uninstall_warning(slot: Slot, release: Seq<char>, error: Seq<char>) -> Seq<char> {
    "failed to uninstall release "@ + release + " (slot "@ + slot.spec_name() + "): "@ + error
}

/// The warning for a route that could not be deleted.
pub open spec fn route_warning(error: Seq<char>) -> Seq<char> {
    "failed to delete HTTPRoute: "@ + error
}

/// The warnings for the first `n` releases, given the error (if any) of each
/// uninstall.
pub open spec fn uninstall_warnings(
    releases: Seq<(Slot, Seq<char>)>,
    errors: Seq<Option<Seq<char>>>,
    n: int,
) -> Seq<Seq<char>>
    decreases n,
{
    if n <= 0 {
        Seq::empty()
    } else {
        let before = uninstall_warnings(releases, errors, n - 1);
        match errors[n - 1] {
            Some(e) => before.push(uninstall_warning(releases[n - 1].0, releases[n - 1].1, e)),
            None => before,
        }
    }
}

/// Summarise a cleanup run: given, for each planned release in order, the
/// error its uninstall returned (`None` on success) and the error of the
/// route deletion, report what was cleaned and collect a warning per failure.
/// A route that the plan does not delete counts as cleaned.
pub fn summarize_cleanup(
    plan: &CleanupPlan,
    uninstall_errors: &Vec<Option<String>>,
    route_error: Option<String>,
) -> (r: CleanupResult)
    requires
        uninstall_errors.len() == plan.releases_to_uninstall.len(),
    ensures
        r.all_releases_cleaned == forall|i: int|
            0 <= i < uninstall_errors.len() ==> #[trigger] uninstall_errors@[i] is None,
        r.route_cleaned == (!plan.delete_route || route_error is None),
        r.warnings.deep_view() == uninstall_warnings(
            plan.releases_to_uninstall.deep_view(),
            uninstall_errors.deep_view(),
            uninstall_errors.len() as int,
        ) + if plan.delete_route && route_error is Some {
            seq![route_warning(route_error->0@)]
        } else {
            Seq::empty()
        },
{
    let ghost rel = plan.releases_to_uninstall.deep_view();
    let ghost errs = uninstall_errors.deep_view();
    let mut warnings: Vec<String> = Vec::new();
    let mut all_releases_cleaned = true;
    let mut i: usize = 0;
    while i < uninstall_errors.len()
        invariant
            0 <= i <= uninstall_errors.len(),
            uninstall_errors.len() == plan.releases_to_uninstall.len(),
            rel == plan.releases_to_uninstall.deep_view(),
            errs == uninstall_errors.deep_view(),
            warnings.deep_view() == uninstall_warnings(rel, errs, i as int),
            all_releases_cleaned == forall|j: int| 0 <= j < i ==> #[trigger] uninstall_errors@[j] is None,
        decreases uninstall_errors.len() - i,
    {
        let ghost before = warnings.deep_view();
        match &uninstall_errors[i] {
            Some(e) => {
                let (slot, release) = &plan.releases_to_uninstall[i];
                let mut w = "failed to uninstall release ".to_owned();
                w.append(release.as_str());
                w.append(" (slot ");
                w.append(slot.as_str());
                w.append("): ");
                w.append(e.as_str());
                warnings.push(w);
                all_releases_cleaned = false;
                assert(warnings.deep_view() =~= before.push(uninstall_warning(rel[i as int].0, rel[i as int].1, errs[i as int]->0)));
            },
            None => {
                assert(warnings.deep_view() =~= before);
            },
        }
        i = i + 1;
    }
    let ghost before = warnings.deep_view();
    let route_cleaned = if plan.delete_route {
        match route_error {
            Some(e) => {
                let mut w = "failed to delete HTTPRoute: ".to_owned();
                w.append(e.as_str());
                warnings.push(w);
                false
            },
            None => true,
        }
    } else {
        true
    };
    proof {
        if plan.delete_route && route_error is Some {
            assert(warnings.deep_view() =~= before + seq![route_warning(route_error->0@)]);
        } else {
            assert(warnings.deep_view() =~= before + Seq::<Seq<char>>::empty());
        }
    }
    CleanupResult { all_releases_cleaned, route_cleaned, warnings }
}

} // verus!
