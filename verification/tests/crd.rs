use multitool::controller::crd::{
    HelmReleaseStatus, ObjectMeta, RolloutPhase, Slot, SlotPair, SlotState, UpdatePolicy, UpdatePolicyMode,
};

#[test]
fn default_status_is_empty() {
    let status = HelmReleaseStatus::default();
    assert!(status.active_slot.is_none());
    assert!(status.active_version.is_none());
    assert!(status.slots.is_none());
    assert!(status.conditions.is_empty());
    assert!(status.rollout.is_none());
    assert!(status.history.is_empty());
}

#[test]
fn slot_other_is_opposite() {
    assert_eq!(Slot::Red.other(), Slot::Black);
    assert_eq!(Slot::Black.other(), Slot::Red);
    assert_eq!(Slot::Red.other().other(), Slot::Red);
}

#[test]
fn names_of_slots_and_phases() {
    assert_eq!(Slot::Red.as_str(), "Red");
    assert_eq!(Slot::Black.as_str(), "Black");
    assert_eq!(RolloutPhase::InProgress.as_str(), "InProgress");
    assert_eq!(RolloutPhase::Promoted.as_str(), "Promoted");
    assert_eq!(RolloutPhase::RolledBack.as_str(), "RolledBack");
    assert_eq!(RolloutPhase::Errored.as_str(), "Errored");
    assert_eq!(RolloutPhase::Cancelled.as_str(), "Cancelled");
}

#[test]
fn update_policy_defaults_to_manual() {
    let policy = UpdatePolicy::default();
    assert_eq!(policy.mode, UpdatePolicyMode::Manual);
    assert!(policy.version_constraint.is_none());
    assert!(policy.poll_interval.is_none());
    assert_eq!(UpdatePolicyMode::default(), UpdatePolicyMode::Manual);
}

#[test]
fn object_meta_default_is_empty() {
    let meta = ObjectMeta::default();
    assert!(meta.name.is_none());
    assert!(meta.namespace.is_none());
    assert!(meta.annotations.is_none());
    assert!(meta.finalizers.is_none());
    assert!(meta.deletion_timestamp.is_none());
    assert!(meta.generation.is_none());
}

#[test]
fn status_clone_is_equal_field_by_field() {
    let status = HelmReleaseStatus {
        active_slot: Some(Slot::Red),
        active_version: Some("1.0.0".into()),
        slots: Some(SlotPair {
            red: Some(SlotState { version: "1.0.0".into(), release_name: "my-app-red".into() }),
            black: None,
        }),
        ..Default::default()
    };
    let copy = status.clone();
    assert_eq!(copy.active_slot, status.active_slot);
    assert_eq!(copy.active_version, status.active_version);
    assert_eq!(copy.slots, status.slots);
}
