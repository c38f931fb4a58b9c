use multitool::controller::conditions::{
    clear_canary_in_progress, clear_condition, clear_reconciling, clear_rollout_failed, get_condition,
    is_condition_true, set_available, set_canary_in_progress, set_condition, set_reconciling, set_rollout_failed,
    set_unavailable, CONDITION_AVAILABLE, CONDITION_CANARY_IN_PROGRESS, CONDITION_RECONCILING,
    CONDITION_ROLLOUT_FAILED, STATUS_FALSE, STATUS_TRUE, STATUS_UNKNOWN,
};
use multitool::controller::crd::HelmReleaseStatus;
use multitool::time::Timestamp;

fn empty_status() -> HelmReleaseStatus {
    HelmReleaseStatus::default()
}

fn t(secs: i64) -> Timestamp {
    Timestamp::from_secs(secs)
}

#[test]
fn set_condition_creates_new() {
    let mut status = empty_status();
    set_condition(
        &mut status,
        CONDITION_AVAILABLE,
        STATUS_TRUE,
        Some("Healthy"),
        Some("All pods ready"),
        Some(1),
        t(1000),
    );

    assert_eq!(status.conditions.len(), 1);
    let c = &status.conditions[0];
    assert_eq!(c.condition_type, CONDITION_AVAILABLE);
    assert_eq!(c.status, STATUS_TRUE);
    assert_eq!(c.reason.as_deref(), Some("Healthy"));
    assert_eq!(c.message.as_deref(), Some("All pods ready"));
    assert_eq!(c.last_transition_time, t(1000));
    assert_eq!(c.observed_generation, Some(1));
}

#[test]
fn set_condition_preserves_transition_time_on_same_status() {
    let mut status = empty_status();

    // First set at t=1000
    set_condition(
        &mut status,
        CONDITION_AVAILABLE,
        STATUS_TRUE,
        Some("Healthy"),
        Some("msg1"),
        Some(1),
        t(1000),
    );

    // Update with same status at t=2000 — transition time should NOT change
    set_condition(
        &mut status,
        CONDITION_AVAILABLE,
        STATUS_TRUE,
        Some("StillHealthy"),
        Some("msg2"),
        Some(2),
        t(2000),
    );

    assert_eq!(status.conditions.len(), 1);
    let c = &status.conditions[0];
    assert_eq!(c.last_transition_time, t(1000)); // preserved
    assert_eq!(c.reason.as_deref(), Some("StillHealthy")); // updated
    assert_eq!(c.observed_generation, Some(2));
}

#[test]
fn set_condition_updates_transition_time_on_status_change() {
    let mut status = empty_status();

    set_condition(
        &mut status,
        CONDITION_AVAILABLE,
        STATUS_TRUE,
        None,
        None,
        None,
        t(1000),
    );

    // Change from True -> False at t=2000
    set_condition(
        &mut status,
        CONDITION_AVAILABLE,
        STATUS_FALSE,
        Some("Unhealthy"),
        None,
        None,
        t(2000),
    );

    assert_eq!(status.conditions.len(), 1);
    let c = &status.conditions[0];
    assert_eq!(c.status, STATUS_FALSE);
    assert_eq!(c.last_transition_time, t(2000)); // updated
}

#[test]
fn clear_condition_removes() {
    let mut status = empty_status();
    set_condition(
        &mut status,
        CONDITION_AVAILABLE,
        STATUS_TRUE,
        None,
        None,
        None,
        t(1000),
    );
    set_condition(
        &mut status,
        CONDITION_RECONCILING,
        STATUS_TRUE,
        None,
        None,
        None,
        t(1000),
    );

    assert_eq!(status.conditions.len(), 2);
    clear_condition(&mut status, CONDITION_AVAILABLE);
    assert_eq!(status.conditions.len(), 1);
    assert_eq!(status.conditions[0].condition_type, CONDITION_RECONCILING);
}

#[test]
fn clear_nonexistent_is_noop() {
    let mut status = empty_status();
    clear_condition(&mut status, CONDITION_AVAILABLE);
    assert!(status.conditions.is_empty());
}

#[test]
fn is_condition_true_queries() {
    let mut status = empty_status();
    assert!(!is_condition_true(&status, CONDITION_AVAILABLE));

    set_condition(
        &mut status,
        CONDITION_AVAILABLE,
        STATUS_FALSE,
        None,
        None,
        None,
        t(1000),
    );
    assert!(!is_condition_true(&status, CONDITION_AVAILABLE));

    set_condition(
        &mut status,
        CONDITION_AVAILABLE,
        STATUS_TRUE,
        None,
        None,
        None,
        t(2000),
    );
    assert!(is_condition_true(&status, CONDITION_AVAILABLE));
}

#[test]
fn get_condition_finds_by_type() {
    let mut status = empty_status();
    assert!(get_condition(&status, CONDITION_AVAILABLE).is_none());

    set_condition(
        &mut status,
        CONDITION_AVAILABLE,
        STATUS_TRUE,
        Some("reason"),
        None,
        None,
        t(1000),
    );

    let c = get_condition(&status, CONDITION_AVAILABLE).expect("should exist");
    assert_eq!(c.status, STATUS_TRUE);
    assert_eq!(c.reason.as_deref(), Some("reason"));
}

#[test]
fn convenience_set_available() {
    let mut status = empty_status();
    set_available(&mut status, "Healthy", "All good", Some(1), t(1000));
    assert!(is_condition_true(&status, CONDITION_AVAILABLE));
}

#[test]
fn convenience_set_unavailable() {
    let mut status = empty_status();
    set_unavailable(&mut status, "Unhealthy", "Pod crash", Some(1), t(1000));
    assert!(!is_condition_true(&status, CONDITION_AVAILABLE));
    let c = get_condition(&status, CONDITION_AVAILABLE).unwrap();
    assert_eq!(c.status, STATUS_FALSE);
}

#[test]
fn convenience_canary_in_progress() {
    let mut status = empty_status();
    set_canary_in_progress(
        &mut status,
        "CanaryStarted",
        "Rolling out v2",
        Some(2),
        t(1000),
    );
    assert!(is_condition_true(&status, CONDITION_CANARY_IN_PROGRESS));

    clear_canary_in_progress(&mut status);
    assert!(!is_condition_true(&status, CONDITION_CANARY_IN_PROGRESS));
    assert!(get_condition(&status, CONDITION_CANARY_IN_PROGRESS).is_none());
}

#[test]
fn convenience_rollout_failed() {
    let mut status = empty_status();
    set_rollout_failed(
        &mut status,
        "InstallError",
        "Helm install failed",
        Some(3),
        t(1000),
    );
    assert!(is_condition_true(&status, CONDITION_ROLLOUT_FAILED));

    clear_rollout_failed(&mut status);
    assert!(get_condition(&status, CONDITION_ROLLOUT_FAILED).is_none());
}

#[test]
fn convenience_reconciling() {
    let mut status = empty_status();
    set_reconciling(&mut status, "Progressing", "Deploying", Some(4), t(1000));
    assert!(is_condition_true(&status, CONDITION_RECONCILING));

    clear_reconciling(&mut status);
    assert!(get_condition(&status, CONDITION_RECONCILING).is_none());
}

#[test]
fn multiple_condition_types_coexist() {
    let mut status = empty_status();
    set_available(&mut status, "Healthy", "ok", Some(1), t(1000));
    set_canary_in_progress(&mut status, "Started", "v2", Some(1), t(1000));
    set_reconciling(&mut status, "Progressing", "working", Some(1), t(1000));

    assert_eq!(status.conditions.len(), 3);
    assert!(is_condition_true(&status, CONDITION_AVAILABLE));
    assert!(is_condition_true(&status, CONDITION_CANARY_IN_PROGRESS));
    assert!(is_condition_true(&status, CONDITION_RECONCILING));
}

#[test]
fn condition_constants() {
    assert_eq!(CONDITION_AVAILABLE, "Available");
    assert_eq!(CONDITION_CANARY_IN_PROGRESS, "CanaryInProgress");
    assert_eq!(CONDITION_ROLLOUT_FAILED, "RolloutFailed");
    assert_eq!(CONDITION_RECONCILING, "Reconciling");
    assert_eq!(STATUS_TRUE, "True");
    assert_eq!(STATUS_FALSE, "False");
    assert_eq!(STATUS_UNKNOWN, "Unknown");
}

#[test]
fn unknown_status_is_not_true() {
    let mut status = empty_status();
    set_condition(&mut status, CONDITION_AVAILABLE, STATUS_UNKNOWN, None, None, None, t(1000));
    assert!(!is_condition_true(&status, CONDITION_AVAILABLE));
}

#[test]
fn set_condition_leaves_other_types_in_place() {
    let mut status = empty_status();
    set_available(&mut status, "Healthy", "ok", Some(1), t(1000));
    set_reconciling(&mut status, "Progressing", "working", Some(1), t(1000));
    set_unavailable(&mut status, "Down", "crash", Some(2), t(3000));
    assert_eq!(status.conditions.len(), 2);
    assert!(is_condition_true(&status, CONDITION_RECONCILING));
    let c = get_condition(&status, CONDITION_AVAILABLE).unwrap();
    assert_eq!(c.status, STATUS_FALSE);
    assert_eq!(c.reason.as_deref(), Some("Down"));
    assert_eq!(c.message.as_deref(), Some("crash"));
    assert_eq!(c.last_transition_time, t(3000));
    assert_eq!(c.observed_generation, Some(2));
}
