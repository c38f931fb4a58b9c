//! Crash recovery: checking that the cluster still matches a rollout in
//! progress, one check at a time.
use vstd::prelude::*;

use super::crd::{HelmRelease, HelmReleaseStatus, HelmReleaseStatusView, RolloutPhase};
use super::slots::{get_slot_state, spec_slot_state};

verus! {

/// Recovery action to take after evaluating the cluster state.
#[derive(Debug, Clone, PartialEq, Eq)]
pub enum RecoveryAction {
    /// The rollout state is consistent with the cluster: resume polling.
    ResumePolling,
    /// Inconsistent state: mark rollout as Errored.
    TransitionToErrored { message: String },
}

/// The releases and namespace a recovery checks.
#[derive(Debug, Clone, PartialEq, Eq)]
pub struct RecoveryTargets {
    pub canary_release: String,
    pub baseline_release: String,
    pub namespace: String,
}

/// What recovery needs before it can decide.
#[derive(Debug, Clone, PartialEq, Eq)]
pub enum RecoveryStart {
    /// Decided from the status alone (`None`: nothing to recover).
    Decided(Option<RecoveryAction>),
    /// The cluster must be checked, starting with the canary release.
    Verify(RecoveryTargets),
}

/// A check of the cluster that recovery asks for.
#[derive(Debug, Clone, Copy, PartialEq, Eq, Structural)]
pub enum RecoveryCheck {
    /// Does the canary release exist?
    CanaryRelease,
    /// Does the baseline release exist?
    BaselineRelease,
    /// Does the HTTPRoute exist (and has it been accepted)?
    Route,
}

/// The next step of recovery after a check.
#[derive(Debug, Clone, PartialEq, Eq)]
pub enum RecoveryStep {
    /// Perform another check.
    Check(RecoveryCheck),
    /// Recovery has decided.
    Finish(RecoveryAction),
}

/// The message recorded when the object of a check is missing.
pub open spec fn missing_message(check: RecoveryCheck) -> Seq<char> {
    match check {
        RecoveryCheck::CanaryRelease => "canary release not found"@,
        RecoveryCheck::BaselineRelease => "baseline release not found"@,
        RecoveryCheck::Route => "HTTPRoute not found"@,
    }
}

fn missing(check: RecoveryCheck) -> (r: RecoveryAction)
    ensures
        r matches RecoveryAction::TransitionToErrored { message } && message@ == missing_message(check),
{
    let message = match check {
        RecoveryCheck::CanaryRelease => "canary release not found",
        RecoveryCheck::BaselineRelease => "baseline release not found",
        RecoveryCheck::Route => "HTTPRoute not found",
    };
    RecoveryAction::TransitionToErrored { message: message.to_owned() }
}

/// Whether recovery has anything to check for a status model: a rollout in
/// progress naming both of its slots.
pub open spec fn needs_recovery(s: HelmReleaseStatusView) -> bool {
    s.rollout matches Some(r) && r.phase == RolloutPhase::InProgress && r.baseline_slot is Some && r.canary_slot is Some
}

/// Begin recovery of a rollout: nothing to do unless a rollout is in
/// progress with both slots named; a slot without recorded state sends the
/// rollout to Errored; otherwise the cluster is to be checked for the two
/// recorded releases in the resource's namespace (empty when unset).
pub fn plan_recovery(hr: &HelmRelease, status: &HelmReleaseStatus) -> (r: RecoveryStart)
    ensures
        !needs_recovery(status@) ==> r == RecoveryStart::Decided(None),
        needs_recovery(status@) ==> {
            let ro = status@.rollout->0;
            let canary = spec_slot_state(status@, ro.canary_slot->0);
            let baseline = spec_slot_state(status@, ro.baseline_slot->0);
            if canary is None {
                r matches RecoveryStart::Decided(Some(RecoveryAction::TransitionToErrored { message }))
                    && message@ == missing_message(RecoveryCheck::CanaryRelease)
            } else if baseline is None {
                r matches RecoveryStart::Decided(Some(RecoveryAction::TransitionToErrored { message }))
                    && message@ == missing_message(RecoveryCheck::BaselineRelease)
            } else {
                r matches RecoveryStart::Verify(t) && t.canary_release@ == canary->0.release_name
                    && t.baseline_release@ == baseline->0.release_name && t.namespace@ == match hr@.metadata.namespace {
                    Some(ns) => ns,
                    None => Seq::<char>::empty(),
                }
            }
        },
{
    let rollout = match &status.rollout {
        Some(r) => r,
        None => {
            return RecoveryStart::Decided(None);
        },
    };
    if rollout.phase != RolloutPhase::InProgress {
        return RecoveryStart::Decided(None);
    }
    let baseline_slot = match rollout.baseline_slot {
        Some(s) => s,
        None => {
            return RecoveryStart::Decided(None);
        },
    };
    let canary_slot = match rollout.canary_slot {
        Some(s) => s,
        None => {
            return RecoveryStart::Decided(None);
        },
    };
    let canary_release = match get_slot_state(status, canary_slot) {
        Some(s) => s.release_name.clone(),
        None => {
            return RecoveryStart::Decided(Some(missing(RecoveryCheck::CanaryRelease)));
        },
    };
    let baseline_release = match get_slot_state(status, baseline_slot) {
        Some(s) => s.release_name.clone(),
        None => {
            return RecoveryStart::Decided(Some(missing(RecoveryCheck::BaselineRelease)));
        },
    };
    let namespace = match &hr.metadata.namespace {
        Some(ns) => ns.clone(),
        None => String::new(),
    };
    RecoveryStart::Verify(RecoveryTargets { canary_release, baseline_release, namespace })
}

/// The step after a check: a missing object sends the rollout to Errored;
/// otherwise the canary release is followed by the baseline release, the
/// baseline release by the route, and a present route resumes polling.
pub open spec fn spec_recovery_step(check: RecoveryCheck, found: bool) -> Option<RecoveryCheck> {
    if !found {
        None
    } else {
        match check {
            RecoveryCheck::CanaryRelease => Some(RecoveryCheck::BaselineRelease),
            RecoveryCheck::BaselineRelease => Some(RecoveryCheck::Route),
            RecoveryCheck::Route => None,
        }
    }
}

/// Decide the step after a check of the cluster.
pub fn recovery_step(check: RecoveryCheck, found: bool) -> (r: RecoveryStep)
    ensures
        match spec_recovery_step(check, found) {
            Some(next) => r == RecoveryStep::Check(next),
            None => if found {
                r == RecoveryStep::Finish(RecoveryAction::ResumePolling)
            } else {
                r matches RecoveryStep::Finish(RecoveryAction::TransitionToErrored { message })
                    && message@ == missing_message(check)
            },
        },
{
    if !found {
        return RecoveryStep::Finish(missing(check));
    }
    match check {
        RecoveryCheck::CanaryRelease => RecoveryStep::Check(RecoveryCheck::BaselineRelease),
        RecoveryCheck::BaselineRelease => RecoveryStep::Check(RecoveryCheck::Route),
        RecoveryCheck::Route => RecoveryStep::Finish(RecoveryAction::ResumePolling),
    }
}

} // verus!
