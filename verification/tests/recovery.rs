use multitool::controller::crd::{
    ChartSource, HelmRelease, HelmReleaseSpec, HelmReleaseStatus, ObjectMeta, RolloutPhase, RolloutStatus, Slot,
    SlotPair, SlotState, UpdatePolicy,
};
use multitool::controller::recovery::{
    plan_recovery, recovery_step, RecoveryAction, RecoveryCheck, RecoveryStart, RecoveryStep, RecoveryTargets,
};
use multitool::time::Timestamp;

fn t(secs: i64) -> Timestamp {
    Timestamp::from_secs(secs)
}

fn test_hr() -> HelmRelease {
    HelmRelease {
        metadata: ObjectMeta {
            name: Some("my-app".into()),
            namespace: Some("default".into()),
            ..Default::default()
        },
        spec: HelmReleaseSpec {
            chart: ChartSource { repository: "oci://r".into(), name: "c".into() },
            update_policy: UpdatePolicy::default(),
            target_version: None,
            values: None,
            routing: None,
            canary: None,
        },
        status: None,
    }
}

fn in_progress_status() -> HelmReleaseStatus {
    HelmReleaseStatus {
        active_slot: Some(Slot::Red),
        active_version: Some("1.0.0".into()),
        slots: Some(SlotPair {
            red: Some(SlotState { version: "1.0.0".into(), release_name: "my-app-red".into() }),
            black: Some(SlotState { version: "2.0.0".into(), release_name: "my-app-black".into() }),
        }),
        rollout: Some(RolloutStatus {
            phase: RolloutPhase::InProgress,
            from_version: Some("1.0.0".into()),
            to_version: "2.0.0".into(),
            baseline_slot: Some(Slot::Red),
            canary_slot: Some(Slot::Black),
            canary_weight: Some(30),
            last_backend_poll: Some(t(1500)),
            backend_decision: None,
            started_at: Some(t(1000)),
            completed_at: None,
            message: None,
        }),
        ..Default::default()
    }
}

/// Drive recovery against a cluster in which each object is present or not.
fn run_recovery(
    hr: &HelmRelease,
    status: &HelmReleaseStatus,
    canary_exists: bool,
    baseline_exists: bool,
    route_exists: bool,
) -> Option<RecoveryAction> {
    match plan_recovery(hr, status) {
        RecoveryStart::Decided(d) => d,
        RecoveryStart::Verify(_) => {
            let mut check = RecoveryCheck::CanaryRelease;
            loop {
                let found = match check {
                    RecoveryCheck::CanaryRelease => canary_exists,
                    RecoveryCheck::BaselineRelease => baseline_exists,
                    RecoveryCheck::Route => route_exists,
                };
                match recovery_step(check, found) {
                    RecoveryStep::Check(next) => check = next,
                    RecoveryStep::Finish(action) => return Some(action),
                }
            }
        }
    }
}

#[test]
fn recovery_consistent_state_resumes_polling() {
    let result = run_recovery(&test_hr(), &in_progress_status(), true, true, true);
    assert_eq!(result, Some(RecoveryAction::ResumePolling));
}

#[test]
fn recovery_missing_canary_transitions_to_errored() {
    let result = run_recovery(&test_hr(), &in_progress_status(), false, true, true);
    assert_eq!(
        result,
        Some(RecoveryAction::TransitionToErrored { message: "canary release not found".into() })
    );
}

#[test]
fn recovery_missing_baseline_transitions_to_errored() {
    let result = run_recovery(&test_hr(), &in_progress_status(), true, false, true);
    assert_eq!(
        result,
        Some(RecoveryAction::TransitionToErrored { message: "baseline release not found".into() })
    );
}

#[test]
fn recovery_missing_httproute_transitions_to_errored() {
    let result = run_recovery(&test_hr(), &in_progress_status(), true, true, false);
    assert_eq!(result, Some(RecoveryAction::TransitionToErrored { message: "HTTPRoute not found".into() }));
}

#[test]
fn recovery_no_active_rollout_returns_none() {
    let result = run_recovery(&test_hr(), &HelmReleaseStatus::default(), true, true, true);
    assert_eq!(result, None);
}

#[test]
fn recovery_promoted_or_errored_rollout_returns_none() {
    for phase in [RolloutPhase::Promoted, RolloutPhase::Errored, RolloutPhase::RolledBack, RolloutPhase::Cancelled] {
        let mut status = in_progress_status();
        status.rollout.as_mut().unwrap().phase = phase;
        assert_eq!(run_recovery(&test_hr(), &status, true, true, true), None);
    }
}

#[test]
fn recovery_missing_slots_definition_returns_none() {
    let mut status = in_progress_status();
    status.rollout.as_mut().unwrap().baseline_slot = None;
    assert_eq!(run_recovery(&test_hr(), &status, true, true, true), None);
}

#[test]
fn recovery_plan_names_targets() {
    assert_eq!(
        plan_recovery(&test_hr(), &in_progress_status()),
        RecoveryStart::Verify(RecoveryTargets {
            canary_release: "my-app-black".into(),
            baseline_release: "my-app-red".into(),
            namespace: "default".into(),
        })
    );
}

#[test]
fn recovery_missing_recorded_state_errors_without_checks() {
    let mut status = in_progress_status();
    status.slots.as_mut().unwrap().black = None;
    assert_eq!(
        plan_recovery(&test_hr(), &status),
        RecoveryStart::Decided(Some(RecoveryAction::TransitionToErrored {
            message: "canary release not found".into()
        }))
    );
    let mut status = in_progress_status();
    status.slots.as_mut().unwrap().red = None;
    assert_eq!(
        plan_recovery(&test_hr(), &status),
        RecoveryStart::Decided(Some(RecoveryAction::TransitionToErrored {
            message: "baseline release not found".into()
        }))
    );
}

#[test]
fn recovery_steps_follow_the_order() {
    assert_eq!(recovery_step(RecoveryCheck::CanaryRelease, true), RecoveryStep::Check(RecoveryCheck::BaselineRelease));
    assert_eq!(recovery_step(RecoveryCheck::BaselineRelease, true), RecoveryStep::Check(RecoveryCheck::Route));
    assert_eq!(recovery_step(RecoveryCheck::Route, true), RecoveryStep::Finish(RecoveryAction::ResumePolling));
}
