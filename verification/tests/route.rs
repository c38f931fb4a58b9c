use multitool::controller::crd::{ChartSource, HelmRelease, HelmReleaseSpec, ObjectMeta, Slot};
use multitool::controller::route::{
    backend_release_names, compute_weights, is_owned_by, ownership_labels, route_name, LABEL_MANAGED_BY,
    LABEL_RELEASE_NAME, LABEL_RELEASE_NAMESPACE, MANAGED_BY_VALUE,
};

fn make_hr(name: &str, namespace: &str) -> HelmRelease {
    HelmRelease {
        metadata: ObjectMeta {
            name: Some(name.to_string()),
            namespace: Some(namespace.to_string()),
            ..Default::default()
        },
        spec: HelmReleaseSpec {
            chart: ChartSource {
                repository: "oci://r".into(),
                name: "c".into(),
            },
            update_policy: Default::default(),
            target_version: None,
            values: None,
            routing: None,
            canary: None,
        },
        status: None,
    }
}

#[test]
fn route_name_generation() {
    let hr = make_hr("my-app", "default");
    assert_eq!(route_name(&hr), Some("my-app-route".to_string()));
}

#[test]
fn ownership_labels_correct() {
    let hr = make_hr("my-app", "prod");
    let labels = ownership_labels(&hr);
    assert_eq!(labels.len(), 3);
    assert!(labels.contains(&(LABEL_MANAGED_BY.to_string(), MANAGED_BY_VALUE.to_string())));
    assert!(labels.contains(&(LABEL_RELEASE_NAME.to_string(), "my-app".to_string())));
    assert!(labels.contains(&(LABEL_RELEASE_NAMESPACE.to_string(), "prod".to_string())));
}

#[test]
fn is_owned_by_matching() {
    let hr = make_hr("my-app", "default");
    let labels = ownership_labels(&hr);
    assert!(is_owned_by(&labels, &hr));
}

#[test]
fn is_owned_by_mismatch() {
    let hr1 = make_hr("my-app", "default");
    let hr2 = make_hr("other-app", "default");
    let labels = ownership_labels(&hr1);
    assert!(!is_owned_by(&labels, &hr2));
}

#[test]
fn is_owned_by_empty_labels() {
    let hr = make_hr("my-app", "default");
    assert!(!is_owned_by(&[], &hr));
}

#[test]
fn compute_weights_zero() {
    assert_eq!(compute_weights(0), (100, 0));
}

#[test]
fn compute_weights_fifty() {
    assert_eq!(compute_weights(50), (50, 50));
}

#[test]
fn compute_weights_hundred() {
    assert_eq!(compute_weights(100), (0, 100));
}

#[test]
fn compute_weights_caps_over_hundred() {
    assert_eq!(compute_weights(150), (0, 100));
}

#[test]
fn backend_release_names_red_active() {
    let hr = make_hr("my-app", "default");
    let (active, canary) = backend_release_names(&hr, Slot::Red).unwrap();
    assert_eq!(active, "my-app-red");
    assert_eq!(canary, "my-app-black");
}

#[test]
fn backend_release_names_black_active() {
    let hr = make_hr("my-app", "default");
    let (active, canary) = backend_release_names(&hr, Slot::Black).unwrap();
    assert_eq!(active, "my-app-black");
    assert_eq!(canary, "my-app-red");
}

#[test]
fn route_name_without_name_is_none() {
    let mut hr = make_hr("my-app", "default");
    hr.metadata.name = None;
    assert_eq!(route_name(&hr), None);
    assert_eq!(backend_release_names(&hr, Slot::Red), None);
}

#[test]
fn ownership_labels_defaults_for_missing_name_and_namespace() {
    let mut hr = make_hr("my-app", "prod");
    hr.metadata.name = None;
    hr.metadata.namespace = None;
    let labels = ownership_labels(&hr);
    assert_eq!(
        labels,
        vec![
            (LABEL_MANAGED_BY.to_string(), MANAGED_BY_VALUE.to_string()),
            (LABEL_RELEASE_NAME.to_string(), "unknown".to_string()),
            (LABEL_RELEASE_NAMESPACE.to_string(), "default".to_string()),
        ]
    );
}

#[test]
fn is_owned_by_needs_every_label() {
    let hr = make_hr("my-app", "prod");
    let mut labels = ownership_labels(&hr);
    labels.pop();
    assert!(!is_owned_by(&labels, &hr));
    labels.push(("extra".to_string(), "x".to_string()));
    labels.push((LABEL_RELEASE_NAMESPACE.to_string(), "prod".to_string()));
    assert!(is_owned_by(&labels, &hr));
}

#[test]
fn compute_weights_always_sum_to_hundred() {
    for w in [0u32, 1, 37, 99, 100, 101, u32::MAX] {
        let (a, c) = compute_weights(w);
        assert_eq!(a + c, 100);
    }
}
