use multitool::controller::leader::{
    leader_state_after, should_reconcile, LeaderElectionConfig, LeaderState, LeaseError, LeaseOutcome,
};
use multitool::time::Duration;

#[test]
fn should_reconcile_leader_returns_true() {
    assert!(should_reconcile(&LeaderState::Leader));
}

#[test]
fn should_reconcile_standby_returns_false() {
    assert!(!should_reconcile(&LeaderState::Standby {
        holder: "other".to_string()
    }));
}

#[test]
fn config_defaults() {
    let config = LeaderElectionConfig::new("lease", "ns", "pod-1");
    assert_eq!(config.lease_duration, Duration::from_secs(15));
    assert_eq!(config.renew_interval, Duration::from_secs(10));
    assert_eq!(config.retry_interval, Duration::from_secs(5));
}

#[test]
fn lease_outcome_equality() {
    assert_eq!(LeaseOutcome::Acquired, LeaseOutcome::Acquired);
    assert_eq!(
        LeaseOutcome::HeldBy("a".into()),
        LeaseOutcome::HeldBy("a".into())
    );
    assert_ne!(LeaseOutcome::Acquired, LeaseOutcome::HeldBy("a".into()));
}

#[test]
fn config_keeps_names() {
    let config = LeaderElectionConfig::new("multitool-leader", "multitool-system", "pod-1");
    assert_eq!(config.lease_name, "multitool-leader");
    assert_eq!(config.namespace, "multitool-system");
    assert_eq!(config.identity, "pod-1");
}

#[test]
fn acquired_lease_makes_leader() {
    let state = leader_state_after(LeaseOutcome::Acquired);
    assert_eq!(state, LeaderState::Leader);
    assert!(should_reconcile(&state));
}

#[test]
fn held_lease_makes_standby() {
    let state = leader_state_after(LeaseOutcome::HeldBy("pod-1".to_string()));
    assert_eq!(state, LeaderState::Standby { holder: "pod-1".to_string() });
    assert!(!should_reconcile(&state));
}

#[test]
fn lease_error_descriptions() {
    assert_eq!(LeaseError::Kube("boom".into()).describe(), "kubernetes API error: boom");
    assert_eq!(LeaseError::Conflict("held".into()).describe(), "lease conflict: held");
}
