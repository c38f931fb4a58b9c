use multitool::controller::conditions::{
    clear_condition, get_condition, is_condition_true, set_condition, CONDITION_AVAILABLE, CONDITION_RECONCILING,
    STATUS_FALSE, STATUS_TRUE,
};
use multitool::controller::crd::{
    ChartSource, HelmRelease, HelmReleaseSpec, HelmReleaseStatus, ObjectMeta, RolloutPhase, Slot,
};
use multitool::controller::deletion::{add_finalizer, remove_finalizer, FINALIZER};
use multitool::controller::deploy::{plan_initial_deploy, status_after_initial_deploy};
use multitool::controller::drift::{detect_drift, DriftOutcome};
use multitool::controller::route::{backend_release_names, is_owned_by, ownership_labels};
use multitool::controller::slots::{canary_slot, get_slot_state, promote_slot, release_name, set_slot_state};
use multitool::time::Timestamp;

fn t(secs: i64) -> Timestamp {
    Timestamp::from_secs(secs)
}

fn make_hr(name: &str) -> HelmRelease {
    HelmRelease {
        metadata: ObjectMeta {
            name: Some(name.to_string()),
            namespace: Some("prod".to_string()),
            ..Default::default()
        },
        spec: HelmReleaseSpec {
            chart: ChartSource { repository: "oci://r".into(), name: "c".into() },
            update_policy: Default::default(),
            target_version: Some("1.0.0".into()),
            values: None,
            routing: None,
            canary: None,
        },
        status: None,
    }
}

#[test]
fn law_canary_slot_never_the_active_one() {
    for active in [Slot::Red, Slot::Black] {
        let status = HelmReleaseStatus { active_slot: Some(active), ..Default::default() };
        assert_ne!(canary_slot(Some(&status)), active);
    }
}

#[test]
fn law_slot_state_read_after_write_leaves_other_slot() {
    let mut status = HelmReleaseStatus::default();
    set_slot_state(&mut status, Slot::Black, "9.9.9".into(), "x-black".into());
    set_slot_state(&mut status, Slot::Red, "1.0.0".into(), "x-red".into());
    assert_eq!(get_slot_state(&status, Slot::Black).unwrap().version, "9.9.9");
    assert_eq!(get_slot_state(&status, Slot::Red).unwrap().release_name, "x-red");
    assert_eq!(promote_slot(&mut status, Slot::Black), Some("9.9.9".to_string()));
    assert_eq!(status.active_slot, Some(Slot::Black));
}

#[test]
fn law_set_condition_keeps_one_condition_per_type() {
    let mut status = HelmReleaseStatus::default();
    set_condition(&mut status, CONDITION_RECONCILING, STATUS_TRUE, None, None, None, t(1));
    for i in 0..5 {
        let s = if i % 2 == 0 { STATUS_TRUE } else { STATUS_FALSE };
        set_condition(&mut status, CONDITION_AVAILABLE, s, None, None, Some(i), t(10 + i));
    }
    assert_eq!(status.conditions.len(), 2);
    assert!(is_condition_true(&status, CONDITION_AVAILABLE));
    assert!(is_condition_true(&status, CONDITION_RECONCILING));
    assert_eq!(get_condition(&status, CONDITION_AVAILABLE).unwrap().last_transition_time, t(14));
    clear_condition(&mut status, CONDITION_AVAILABLE);
    assert!(get_condition(&status, CONDITION_AVAILABLE).is_none());
    assert!(is_condition_true(&status, CONDITION_RECONCILING));
}

#[test]
fn law_finalizer_add_remove() {
    let mut hr = make_hr("my-app");
    hr.metadata.finalizers = Some(vec!["keep".to_string()]);
    let added = add_finalizer(&hr);
    assert_eq!(added, vec!["keep".to_string(), FINALIZER.to_string()]);
    hr.metadata.finalizers = Some(added.clone());
    assert_eq!(add_finalizer(&hr), added);
    assert_eq!(remove_finalizer(&hr), vec!["keep".to_string()]);
}

#[test]
fn law_own_labels_owned_and_names_differ() {
    let hr = make_hr("my-app");
    assert!(is_owned_by(&ownership_labels(&hr), &hr));
    for slot in [Slot::Red, Slot::Black] {
        assert_ne!(release_name("my-app", slot), release_name("my-app", slot.other()));
        let (a, c) = backend_release_names(&hr, slot).unwrap();
        assert_ne!(a, c);
    }
}

#[test]
fn law_in_sync_after_initial_deploy_and_blocked_during_rollout() {
    let hr = make_hr("my-app");
    let plan = plan_initial_deploy(&hr, "1.0.0", None).unwrap();
    let mut status = status_after_initial_deploy(&plan, Some(1), t(100));
    assert_eq!(detect_drift(&hr.spec, Some(&status)), DriftOutcome::InSync);
    assert!(status.history.is_empty());
    status.rollout.as_mut().unwrap().phase = RolloutPhase::InProgress;
    let mut spec = hr.spec.clone();
    spec.target_version = Some("7.0.0".into());
    assert_eq!(
        detect_drift(&spec, Some(&status)),
        DriftOutcome::RolloutInProgress { phase: RolloutPhase::InProgress }
    );
}
