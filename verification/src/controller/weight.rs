//! Traffic weight configurations for the HTTPRoute backends.
use vstd::prelude::*;

use super::crd::Slot;
use super::route::{compute_weights, spec_compute_weights};
use super::slots::{release_name, spec_release_name};

verus! {

/// Describes the desired backend weight configuration for an HTTPRoute.
#[derive(Debug, Clone, PartialEq, Eq)]
pub struct WeightConfig {
    /// The release name receiving baseline (production) traffic.
    pub active_backend: String,
    /// Weight for the active backend (0-100).
    pub active_weight: u32,
    /// If a canary is present, the release name and weight.
    pub canary: Option<CanaryBackend>,
}

/// A canary backend and its weight.
#[derive(Debug, Clone, PartialEq, Eq)]
pub struct CanaryBackend {
    pub backend: String,
    pub weight: u32,
}

/// Model of a [`WeightConfig`].
pub struct WeightConfigView {
    pub active_backend: Seq<char>,
    pub active_weight: u32,
    pub canary: Option<(Seq<char>, u32)>,
}

impl View for WeightConfig {
    type V = WeightConfigView;

    open spec fn view(&self) -> WeightConfigView {
        WeightConfigView {
            active_backend: self.active_backend@,
            active_weight: self.active_weight,
            canary: match self.canary {
                Some(c) => Some((c.backend@, c.weight)),
                None => None,
            },
        }
    }
}

/// All traffic to one backend.
pub open spec fn spec_single_backend(active: Seq<char>) -> WeightConfigView {
    WeightConfigView { active_backend: active, active_weight: 100, canary: None }
}

/// Build a `WeightConfig` for a single-backend route (100% to active).
pub fn single_backend(active_release: &str) -> (r: WeightConfig)
    ensures
        r@ == spec_single_backend(active_release@),
{
    WeightConfig { active_backend: active_release.to_owned(), active_weight: 100, canary: None }
}

/// The split for a canary weight: a single backend at 0, otherwise the
/// capped canary weight to the canary and the rest to the active backend.
pub open spec fn spec_split_traffic(active: Seq<char>, canary: Seq<char>, canary_weight: u32) -> WeightConfigView {
    if canary_weight == 0 {
        spec_single_backend(active)
    } else {
        let (active_w, canary_w) = spec_compute_weights(canary_weight);
        WeightConfigView { active_backend: active, active_weight: active_w, canary: Some((canary, canary_w)) }
    }
}

/// Build a `WeightConfig` for a two-backend traffic split.
///
/// `canary_weight` is the percentage of traffic (0-100) directed to the
/// canary backend. If `canary_weight` is 0, this behaves like
/// `single_backend`.
pub fn split_traffic(active_release: &str, canary_release: &str, canary_weight: u32) -> (r: WeightConfig)
    ensures
        r@ == spec_split_traffic(active_release@, canary_release@, canary_weight),
{
    if canary_weight == 0 {
        return single_backend(active_release);
    }
    let (active_w, canary_w) = compute_weights(canary_weight);
    WeightConfig {
        active_backend: active_release.to_owned(),
        active_weight: active_w,
        canary: Some(CanaryBackend { backend: canary_release.to_owned(), weight: canary_w }),
    }
}

/// Build a `WeightConfig` for a full promotion (100% to canary).
pub fn full_promotion(canary_release: &str) -> (r: WeightConfig)
    ensures
        r@ == spec_single_backend(canary_release@),
{
    WeightConfig { active_backend: canary_release.to_owned(), active_weight: 100, canary: None }
}

/// Derive release names and build a weight config for a given slot layout.
pub fn weight_config_for_slots(base_name: &str, active_slot: Slot, canary_weight: u32) -> (r: WeightConfig)
    ensures
        r@ == spec_split_traffic(
            spec_release_name(base_name@, active_slot),
            spec_release_name(base_name@, active_slot.spec_other()),
            canary_weight,
        ),
{
    let active_release = release_name(base_name, active_slot);
    let canary_release = release_name(base_name, active_slot.other());
    split_traffic(active_release.as_str(), canary_release.as_str(), canary_weight)
}

} // verus!
