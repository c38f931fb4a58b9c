//! HTTPRoute helpers: names, ownership labels and backend weights.
use vstd::prelude::*;

use super::crd::{HelmRelease, HelmReleaseView, Slot};
use super::slots::{release_name, spec_release_name};
use crate::text::str_eq;

verus! {

/// Ownership labels applied to HTTPRoute resources managed by this controller.
pub const LABEL_MANAGED_BY: &'static str = "app.kubernetes.io/managed-by";
pub const MANAGED_BY_VALUE: &'static str = "multitool";
pub const LABEL_RELEASE_NAME: &'static str = "multitool.wack.run/release-name";
pub const LABEL_RELEASE_NAMESPACE: &'static str = "multitool.wack.run/release-namespace";

/// Generate the expected HTTPRoute name for a given HelmRelease.
pub fn route_name(hr: &HelmRelease) -> (r: Option<String>)
    ensures
        match r {
            Some(n) => hr@.metadata.name matches Some(name) && n@ == name + "-route"@,
            None => hr@.metadata.name is None,
        },
{
    match &hr.metadata.name {
        Some(n) => {
            let mut r = n.clone();
            r.append("-route");
            Some(r)
        },
        None => None,
    }
}

/// The ownership labels of a resource model, in order.
pub open spec fn spec_ownership_labels(hr: HelmReleaseView) -> Seq<(Seq<char>, Seq<char>)> {
    seq![
        ("app.kubernetes.io/managed-by"@, "multitool"@),
        (
            "multitool.wack.run/release-name"@,
            match hr.metadata.name {
                Some(n) => n,
                None => "unknown"@,
            },
        ),
        (
            "multitool.wack.run/release-namespace"@,
            match hr.metadata.namespace {
                Some(n) => n,
                None => "default"@,
            },
        ),
    ]
}

/// Build the ownership labels map for an HTTPRoute.
pub fn ownership_labels(hr: &HelmRelease) -> (r: Vec<(String, String)>)
    ensures
        r.deep_view() == spec_ownership_labels(hr@),
{
    let name = match &hr.metadata.name {
        Some(n) => n.clone(),
        None => "unknown".to_owned(),
    };
    let namespace = match &hr.metadata.namespace {
        Some(n) => n.clone(),
        None => "default".to_owned(),
    };
    let mut r: Vec<(String, String)> = Vec::new();
    r.push((LABEL_MANAGED_BY.to_owned(), MANAGED_BY_VALUE.to_owned()));
    r.push((LABEL_RELEASE_NAME.to_owned(), name));
    r.push((LABEL_RELEASE_NAMESPACE.to_owned(), namespace));
    assert(r.deep_view() =~= spec_ownership_labels(hr@));
    r
}

/// Whether `labels` holds the pair (`key`, `value`).
fn has_label(labels: &[(String, String)], key: &str, value: &str) -> (r: bool)
    ensures
        r == labels.deep_view().contains((key@, value@)),
{
    let ghost l = labels.deep_view();
    let mut i: usize = 0;
    while i < labels.len()
        invariant
            0 <= i <= labels.len(),
            l == labels.deep_view(),
            forall|j: int| 0 <= j < i ==> l[j] != (key@, value@),
        decreases labels.len() - i,
    {
        let (k, v) = &labels[i];
        if str_eq(k.as_str(), key) && str_eq(v.as_str(), value) {
            assert(l[i as int] == (key@, value@));
            return true;
        }
        i = i + 1;
    }
    false
}

/// Check if the given labels indicate the HTTPRoute is owned by this
/// HelmRelease: every ownership label is among them.
pub fn is_owned_by(labels: &[(String, String)], hr: &HelmRelease) -> (r: bool)
    ensures
        r == forall|i: int|
            0 <= i < 3 ==> labels.deep_view().contains(#[trigger] spec_ownership_labels(hr@)[i]),
{
    let expected = ownership_labels(hr);
    let ghost e = expected.deep_view();
    assert(expected.len() == e.len());
    let mut i: usize = 0;
    while i < expected.len()
        invariant
            0 <= i <= expected.len(),
            expected.len() == 3,
            e == expected.deep_view(),
            e == spec_ownership_labels(hr@),
            forall|j: int| 0 <= j < i ==> labels.deep_view().contains(#[trigger] e[j]),
        decreases expected.len() - i,
    {
        let (k, v) = &expected[i];
        if !has_label(labels, k.as_str(), v.as_str()) {
            assert(!labels.deep_view().contains(e[i as int]));
            return false;
        }
        i = i + 1;
    }
    true
}

/// The (active, canary) weights for a requested canary weight: the canary
/// weight is capped at 100 and the two always sum to 100.
pub open spec fn spec_compute_weights(canary_weight: u32) -> (u32, u32) {
    if canary_weight >= 100 {
        (0, 100)
    } else {
        ((100 - canary_weight) as u32, canary_weight)
    }
}

/// Compute backend weights for traffic splitting between the active and
/// canary slots.
///
/// Returns `(active_weight, canary_weight)`. Weights always sum to 100.
pub fn compute_weights(canary_weight: u32) -> (r: (u32, u32))
    ensures
        r == spec_compute_weights(canary_weight),
        r.0 + r.1 == 100,
{
    let capped = if canary_weight < 100 {
        canary_weight
    } else {
        100
    };
    (100 - capped, capped)
}

/// Determine which release names correspond to the active and canary backends.
pub fn backend_release_names(hr: &HelmRelease, active_slot: Slot) -> (r: Option<(String, String)>)
    ensures
        match r {
            Some((active, canary)) => hr@.metadata.name matches Some(base) && active@ == spec_release_name(
                base,
                active_slot,
            ) && canary@ == spec_release_name(base, active_slot.spec_other()),
            None => hr@.metadata.name is None,
        },
{
    let base = match &hr.metadata.name {
        Some(n) => n.as_str(),
        None => {
            return None;
        },
    };
    Some((release_name(base, active_slot), release_name(base, active_slot.other())))
}

} // verus!
