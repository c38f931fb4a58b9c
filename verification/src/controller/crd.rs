//! The HelmRelease resource: its spec, its status, and the models the
//! contracts of the controller are stated over.
use vstd::prelude::*;

use crate::time::Timestamp;

verus! {

/// The JSON value type of chart values, carried through unchanged.
#[verifier::external_type_specification]
#[verifier::external_body]
pub struct ExJsonValue(serde_json::Value);

/// The view of an optional string.
pub open spec fn opt_view(o: Option<String>) -> Option<Seq<char>> {
    match o {
        Some(s) => Some(s@),
        None => None,
    }
}

// ---------------------------------------------------------------------------
// Enums
// ---------------------------------------------------------------------------

/// Whether version updates are discovered automatically or require manual
/// intervention.
#[derive(Debug, Clone, Copy, PartialEq, Eq, Structural)]
pub enum UpdatePolicyMode {
    Manual,
    Auto,
}

impl Default for UpdatePolicyMode {
    fn default() -> (m: Self)
        ensures
            m == UpdatePolicyMode::Manual,
    {
        UpdatePolicyMode::Manual
    }
}

/// Identifies which deployment slot is active.
#[derive(Debug, Clone, Copy, PartialEq, Eq, Structural)]
pub enum Slot {
    Red,
    Black,
}

impl DeepView for Slot {
    type V = Slot;

    open spec fn deep_view(&self) -> Slot {
        *self
    }
}

impl Slot {
    /// The opposite slot.
    pub open spec fn spec_other(self) -> Slot {
        match self {
            Slot::Red => Slot::Black,
            Slot::Black => Slot::Red,
        }
    }

    /// The name of a slot, as written in messages.
    pub open spec fn spec_name(self) -> Seq<char> {
        match self {
            Slot::Red => "Red"@,
            Slot::Black => "Black"@,
        }
    }

    /// The name of the slot, as written in messages.
    pub fn as_str(&self) -> (r: &'static str)
        ensures
            r@ == self.spec_name(),
    {
        match self {
            Slot::Red => "Red",
            Slot::Black => "Black",
        }
    }

    /// Return the opposite slot.
    pub fn other(self) -> (r: Self)
        ensures
            r == self.spec_other(),
    {
        match self {
            Slot::Red => Slot::Black,
            Slot::Black => Slot::Red,
        }
    }
}

/// Current phase of a rollout.
#[derive(Debug, Clone, Copy, PartialEq, Eq, Structural)]
pub enum RolloutPhase {
    InProgress,
    Promoted,
    RolledBack,
    Errored,
    Cancelled,
}

impl RolloutPhase {
    /// The name of a phase, as written in messages.
    pub open spec fn spec_name(self) -> Seq<char> {
        match self {
            RolloutPhase::InProgress => "InProgress"@,
            RolloutPhase::Promoted => "Promoted"@,
            RolloutPhase::RolledBack => "RolledBack"@,
            RolloutPhase::Errored => "Errored"@,
            RolloutPhase::Cancelled => "Cancelled"@,
        }
    }

    /// The name of the phase, as written in messages.
    pub fn as_str(&self) -> (r: &'static str)
        ensures
            r@ == self.spec_name(),
    {
        match self {
            RolloutPhase::InProgress => "InProgress",
            RolloutPhase::Promoted => "Promoted",
            RolloutPhase::RolledBack => "RolledBack",
            RolloutPhase::Errored => "Errored",
            RolloutPhase::Cancelled => "Cancelled",
        }
    }
}

impl DeepView for RolloutPhase {
    type V = RolloutPhase;

    open spec fn deep_view(&self) -> RolloutPhase {
        *self
    }
}

/// Decision returned by the canary analysis backend.
#[derive(Debug, Clone, Copy, PartialEq, Eq, Structural)]
pub enum BackendDecision {
    Observing,
    Promote,
    Rollback,
}

impl DeepView for BackendDecision {
    type V = BackendDecision;

    open spec fn deep_view(&self) -> BackendDecision {
        *self
    }
}

// ---------------------------------------------------------------------------
// Spec
// ---------------------------------------------------------------------------

/// Pointer to a Helm chart in an OCI or HTTP repository.
#[derive(Debug, Clone)]
pub struct ChartSource {
    /// Repository URL (e.g. `oci://ghcr.io/my-org/charts`).
    pub repository: String,
    /// Chart name within the repository.
    pub name: String,
}

/// How the controller discovers and applies new chart versions.
#[derive(Debug, Clone)]
pub struct UpdatePolicy {
    pub mode: UpdatePolicyMode,
    /// SemVer constraint for acceptable versions (e.g. `^1.2`).
    pub version_constraint: Option<String>,
    /// How often to poll the registry for new versions (e.g. `5m`).
    pub poll_interval: Option<String>,
}

impl Default for UpdatePolicy {
    fn default() -> (p: Self)
        ensures
            p.mode == UpdatePolicyMode::Manual,
            p.version_constraint is None,
            p.poll_interval is None,
    {
        UpdatePolicy { mode: UpdatePolicyMode::Manual, version_constraint: None, poll_interval: None }
    }
}

/// Gateway API routing configuration for traffic splitting.
#[derive(Debug, Clone)]
pub struct RoutingConfig {
    /// Parent gateway references for the HTTPRoute.
    pub parent_refs: Vec<ParentRef>,
    /// Routing rules with match criteria.
    pub rules: Vec<RoutingRule>,
}

/// Reference to a parent Gateway resource.
#[derive(Debug, Clone)]
pub struct ParentRef {
    pub name: String,
    /// Namespace of the Gateway. Defaults to the HelmRelease namespace.
    pub namespace: Option<String>,
    /// Section name within the Gateway (listener name).
    pub section_name: Option<String>,
}

/// A single routing rule with optional match criteria.
#[derive(Debug, Clone)]
pub struct RoutingRule {
    pub matches: Vec<HttpMatch>,
    /// Backend port to route to.
    pub port: u16,
}

/// HTTP match condition for routing.
#[derive(Debug, Clone)]
pub struct HttpMatch {
    pub path: Option<PathMatch>,
    pub headers: Vec<HeaderMatch>,
}

/// Path matching configuration.
#[derive(Debug, Clone)]
pub struct PathMatch {
    /// Match type: Exact, PathPrefix, or RegularExpression.
    pub match_type: String,
    pub value: String,
}

/// Header matching configuration.
#[derive(Debug, Clone)]
pub struct HeaderMatch {
    pub name: String,
    pub value: String,
}

/// Configuration for canary analysis via the MultiTool backend.
#[derive(Debug, Clone)]
pub struct CanaryConfig {
    /// URL of the MultiTool backend endpoint.
    pub backend: String,
    /// How often to poll the backend for a canary decision (e.g. `30s`).
    pub poll_interval: Option<String>,
    /// Reference to a Secret holding backend credentials.
    pub secret_ref: Option<SecretRef>,
    /// Analysis profile identifier in the backend.
    pub profile_id: Option<String>,
}

/// Reference to a Kubernetes Secret.
#[derive(Debug, Clone)]
pub struct SecretRef {
    pub name: String,
}

/// Desired state of a HelmRelease.
#[derive(Debug, Clone)]
pub struct HelmReleaseSpec {
    pub chart: ChartSource,
    pub update_policy: UpdatePolicy,
    /// Explicit version to deploy.
    pub target_version: Option<String>,
    /// Helm values to pass to every install/upgrade.
    pub values: Option<serde_json::Value>,
    pub routing: Option<RoutingConfig>,
    pub canary: Option<CanaryConfig>,
}


// ---------------------------------------------------------------------------
// Status
// ---------------------------------------------------------------------------

/// State of an individual deployment slot.
#[derive(Debug, PartialEq, Eq)]
pub struct SlotState {
    /// Chart version installed in this slot.
    pub version: String,
    /// Helm release name for this slot.
    pub release_name: String,
}

/// Model of a [`SlotState`].
pub struct SlotStateView {
    pub version: Seq<char>,
    pub release_name: Seq<char>,
}

impl DeepView for SlotState {
    type V = SlotStateView;

    open spec fn deep_view(&self) -> SlotStateView {
        SlotStateView { version: self.version@, release_name: self.release_name@ }
    }
}

impl View for SlotState {
    type V = SlotStateView;

    open spec fn view(&self) -> SlotStateView {
        self.deep_view()
    }
}

impl Clone for SlotState {
    fn clone(&self) -> (r: Self)
        ensures
            r@ == self@,
    {
        SlotState { version: self.version.clone(), release_name: self.release_name.clone() }
    }
}

/// The pair of deployment slots.
#[derive(Debug, PartialEq, Eq)]
pub struct SlotPair {
    pub red: Option<SlotState>,
    pub black: Option<SlotState>,
}

/// Model of a [`SlotPair`].
pub struct SlotPairView {
    pub red: Option<SlotStateView>,
    pub black: Option<SlotStateView>,
}

impl DeepView for SlotPair {
    type V = SlotPairView;

    open spec fn deep_view(&self) -> SlotPairView {
        SlotPairView { red: self.red.deep_view(), black: self.black.deep_view() }
    }
}

impl View for SlotPair {
    type V = SlotPairView;

    open spec fn view(&self) -> SlotPairView {
        self.deep_view()
    }
}

impl Clone for SlotPair {
    fn clone(&self) -> (r: Self)
        ensures
            r@ == self@,
    {
        let red = match &self.red {
            Some(s) => Some(s.clone()),
            None => None,
        };
        let black = match &self.black {
            Some(s) => Some(s.clone()),
            None => None,
        };
        SlotPair { red, black }
    }
}

/// A standard Kubernetes-style condition.
#[derive(Debug, PartialEq, Eq)]
pub struct Condition {
    /// Type of the condition (e.g. `Available`, `CanaryInProgress`).
    pub condition_type: String,
    /// Status of the condition: `True`, `False`, or `Unknown`.
    pub status: String,
    /// Machine-readable reason for the condition's last transition.
    pub reason: Option<String>,
    /// Human-readable message.
    pub message: Option<String>,
    /// Timestamp of the last transition.
    pub last_transition_time: Timestamp,
    /// Generation of the resource observed when this condition was set.
    pub observed_generation: Option<i64>,
}

/// Model of a [`Condition`].
pub struct ConditionView {
    pub condition_type: Seq<char>,
    pub status: Seq<char>,
    pub reason: Option<Seq<char>>,
    pub message: Option<Seq<char>>,
    pub last_transition_time: Timestamp,
    pub observed_generation: Option<i64>,
}

impl DeepView for Condition {
    type V = ConditionView;

    open spec fn deep_view(&self) -> ConditionView {
        ConditionView {
            condition_type: self.condition_type@,
            status: self.status@,
            reason: opt_view(self.reason),
            message: opt_view(self.message),
            last_transition_time: self.last_transition_time,
            observed_generation: self.observed_generation,
        }
    }
}

impl View for Condition {
    type V = ConditionView;

    open spec fn view(&self) -> ConditionView {
        self.deep_view()
    }
}

impl Clone for Condition {
    fn clone(&self) -> (r: Self)
        ensures
            r@ == self@,
    {
        Condition {
            condition_type: self.condition_type.clone(),
            status: self.status.clone(),
            reason: clone_opt_string(&self.reason),
            message: clone_opt_string(&self.message),
            last_transition_time: self.last_transition_time,
            observed_generation: self.observed_generation,
        }
    }
}

/// Copy an optional string.
pub fn clone_opt_string(o: &Option<String>) -> (r: Option<String>)
    ensures
        opt_view(r) == opt_view(*o),
{
    match o {
        Some(s) => Some(s.clone()),
        None => None,
    }
}

/// Live rollout status.
#[derive(Debug, PartialEq, Eq)]
pub struct RolloutStatus {
    /// Current phase of the rollout.
    pub phase: RolloutPhase,
    /// Version being replaced.
    pub from_version: Option<String>,
    /// Version being rolled out.
    pub to_version: String,
    /// Slot that holds the baseline (existing) release.
    pub baseline_slot: Option<Slot>,
    /// Slot that holds the canary (new) release.
    pub canary_slot: Option<Slot>,
    /// Current traffic weight directed to the canary slot (0-100).
    pub canary_weight: Option<u32>,
    /// Timestamp of the last backend poll.
    pub last_backend_poll: Option<Timestamp>,
    /// Most recent decision from the canary analysis backend.
    pub backend_decision: Option<BackendDecision>,
    /// When the rollout started.
    pub started_at: Option<Timestamp>,
    /// When the rollout completed (promoted, rolled back, or errored).
    pub completed_at: Option<Timestamp>,
    /// Human-readable message about the rollout.
    pub message: Option<String>,
}

/// Model of a [`RolloutStatus`].
pub struct RolloutStatusView {
    pub phase: RolloutPhase,
    pub from_version: Option<Seq<char>>,
    pub to_version: Seq<char>,
    pub baseline_slot: Option<Slot>,
    pub canary_slot: Option<Slot>,
    pub canary_weight: Option<u32>,
    pub last_backend_poll: Option<Timestamp>,
    pub backend_decision: Option<BackendDecision>,
    pub started_at: Option<Timestamp>,
    pub completed_at: Option<Timestamp>,
    pub message: Option<Seq<char>>,
}

impl DeepView for RolloutStatus {
    type V = RolloutStatusView;

    open spec fn deep_view(&self) -> RolloutStatusView {
        RolloutStatusView {
            phase: self.phase,
            from_version: opt_view(self.from_version),
            to_version: self.to_version@,
            baseline_slot: self.baseline_slot,
            canary_slot: self.canary_slot,
            canary_weight: self.canary_weight,
            last_backend_poll: self.last_backend_poll,
            backend_decision: self.backend_decision,
            started_at: self.started_at,
            completed_at: self.completed_at,
            message: opt_view(self.message),
        }
    }
}

impl View for RolloutStatus {
    type V = RolloutStatusView;

    open spec fn view(&self) -> RolloutStatusView {
        self.deep_view()
    }
}

impl Clone for RolloutStatus {
    fn clone(&self) -> (r: Self)
        ensures
            r@ == self@,
    {
        RolloutStatus {
            phase: self.phase,
            from_version: clone_opt_string(&self.from_version),
            to_version: self.to_version.clone(),
            baseline_slot: self.baseline_slot,
            canary_slot: self.canary_slot,
            canary_weight: self.canary_weight,
            last_backend_poll: self.last_backend_poll,
            backend_decision: self.backend_decision,
            started_at: self.started_at,
            completed_at: self.completed_at,
            message: clone_opt_string(&self.message),
        }
    }
}

/// Summary of a completed rollout, stored in history.
#[derive(Debug, PartialEq, Eq)]
pub struct RolloutSummary {
    /// Final phase of the rollout.
    pub phase: RolloutPhase,
    /// Version that was replaced.
    pub from_version: Option<String>,
    /// Version that was rolled out.
    pub to_version: String,
    /// When the rollout started.
    pub started_at: Timestamp,
    /// When the rollout completed.
    pub completed_at: Timestamp,
    /// Human-readable summary message.
    pub message: Option<String>,
}

/// Model of a [`RolloutSummary`].
pub struct RolloutSummaryView {
    pub phase: RolloutPhase,
    pub from_version: Option<Seq<char>>,
    pub to_version: Seq<char>,
    pub started_at: Timestamp,
    pub completed_at: Timestamp,
    pub message: Option<Seq<char>>,
}

impl DeepView for RolloutSummary {
    type V = RolloutSummaryView;

    open spec fn deep_view(&self) -> RolloutSummaryView {
        RolloutSummaryView {
            phase: self.phase,
            from_version: opt_view(self.from_version),
            to_version: self.to_version@,
            started_at: self.started_at,
            completed_at: self.completed_at,
            message: opt_view(self.message),
        }
    }
}

impl View for RolloutSummary {
    type V = RolloutSummaryView;

    open spec fn view(&self) -> RolloutSummaryView {
        self.deep_view()
    }
}

impl Clone for RolloutSummary {
    fn clone(&self) -> (r: Self)
        ensures
            r@ == self@,
    {
        RolloutSummary {
            phase: self.phase,
            from_version: clone_opt_string(&self.from_version),
            to_version: self.to_version.clone(),
            started_at: self.started_at,
            completed_at: self.completed_at,
            message: clone_opt_string(&self.message),
        }
    }
}

/// Observed state of a HelmRelease, written by the controller.
#[derive(Debug)]
pub struct HelmReleaseStatus {
    /// Which slot is currently receiving production traffic.
    pub active_slot: Option<Slot>,
    /// Chart version currently serving production traffic.
    pub active_version: Option<String>,
    /// State of the red and black deployment slots.
    pub slots: Option<SlotPair>,
    /// Standard Kubernetes conditions.
    pub conditions: Vec<Condition>,
    /// Details of the currently active rollout, if any.
    pub rollout: Option<RolloutStatus>,
    /// Completed rollout history (most recent first).
    pub history: Vec<RolloutSummary>,
}

/// Model of a [`HelmReleaseStatus`].
pub struct HelmReleaseStatusView {
    pub active_slot: Option<Slot>,
    pub active_version: Option<Seq<char>>,
    pub slots: Option<SlotPairView>,
    pub conditions: Seq<ConditionView>,
    pub rollout: Option<RolloutStatusView>,
    pub history: Seq<RolloutSummaryView>,
}

impl DeepView for HelmReleaseStatus {
    type V = HelmReleaseStatusView;

    open spec fn deep_view(&self) -> HelmReleaseStatusView {
        HelmReleaseStatusView {
            active_slot: self.active_slot,
            active_version: opt_view(self.active_version),
            slots: self.slots.deep_view(),
            conditions: self.conditions.deep_view(),
            rollout: self.rollout.deep_view(),
            history: self.history.deep_view(),
        }
    }
}

impl View for HelmReleaseStatus {
    type V = HelmReleaseStatusView;

    open spec fn view(&self) -> HelmReleaseStatusView {
        self.deep_view()
    }
}

impl Clone for HelmReleaseStatus {
    fn clone(&self) -> (r: Self)
        ensures
            r@ == self@,
    {
        let slots = match &self.slots {
            Some(p) => Some(p.clone()),
            None => None,
        };
        let rollout = match &self.rollout {
            Some(r) => Some(r.clone()),
            None => None,
        };
        let conditions = self.conditions.clone();
        let history = self.history.clone();
        proof {
            assert(conditions.deep_view() =~= self.conditions.deep_view());
            assert(history.deep_view() =~= self.history.deep_view());
        }
        HelmReleaseStatus {
            active_slot: self.active_slot,
            active_version: clone_opt_string(&self.active_version),
            slots,
            conditions,
            rollout,
            history,
        }
    }
}

impl Default for HelmReleaseStatus {
    fn default() -> (s: Self)
        ensures
            s@ == empty_status_view(),
    {
        let s = HelmReleaseStatus {
            active_slot: None,
            active_version: None,
            slots: None,
            conditions: Vec::new(),
            rollout: None,
            history: Vec::new(),
        };
        proof {
            assert(s.conditions.deep_view() =~= Seq::<ConditionView>::empty());
            assert(s.history.deep_view() =~= Seq::<RolloutSummaryView>::empty());
        }
        s
    }
}

/// The model of a status with nothing recorded.
pub open spec fn empty_status_view() -> HelmReleaseStatusView {
    HelmReleaseStatusView {
        active_slot: None,
        active_version: None,
        slots: None,
        conditions: Seq::empty(),
        rollout: None,
        history: Seq::empty(),
    }
}

// ---------------------------------------------------------------------------
// The resource
// ---------------------------------------------------------------------------

/// The metadata of a HelmRelease that the controller reads.
#[derive(Debug, Clone)]
pub struct ObjectMeta {
    pub name: Option<String>,
    pub namespace: Option<String>,
    /// Annotations as (key, value) pairs. Kubernetes keeps their keys
    /// distinct (`annotation_keys_distinct`); a lookup takes the first pair
    /// with its key.
    pub annotations: Option<Vec<(String, String)>>,
    pub finalizers: Option<Vec<String>>,
    /// Set when the resource is being deleted.
    pub deletion_timestamp: Option<Timestamp>,
    pub generation: Option<i64>,
}

impl Default for ObjectMeta {
    fn default() -> (m: Self)
        ensures
            m.name is None,
            m.namespace is None,
            m.annotations is None,
            m.finalizers is None,
            m.deletion_timestamp is None,
            m.generation is None,
    {
        ObjectMeta {
            name: None,
            namespace: None,
            annotations: None,
            finalizers: None,
            deletion_timestamp: None,
            generation: None,
        }
    }
}

/// Whether no key occurs twice among the annotation pairs.
pub open spec fn annotation_keys_distinct(anns: Seq<(Seq<char>, Seq<char>)>) -> bool {
    forall|i: int, j: int| 0 <= i < j < anns.len() ==> #[trigger] anns[i].0 != #[trigger] anns[j].0
}

/// Model of an [`ObjectMeta`].
pub struct ObjectMetaView {
    pub name: Option<Seq<char>>,
    pub namespace: Option<Seq<char>>,
    pub annotations: Option<Seq<(Seq<char>, Seq<char>)>>,
    pub finalizers: Option<Seq<Seq<char>>>,
    pub deletion_timestamp: Option<Timestamp>,
    pub generation: Option<i64>,
}

impl View for ObjectMeta {
    type V = ObjectMetaView;

    open spec fn view(&self) -> ObjectMetaView {
        ObjectMetaView {
            name: opt_view(self.name),
            namespace: opt_view(self.namespace),
            annotations: self.annotations.deep_view(),
            finalizers: self.finalizers.deep_view(),
            deletion_timestamp: self.deletion_timestamp,
            generation: self.generation,
        }
    }
}

/// A HelmRelease resource: metadata, desired state and observed state.
#[derive(Debug, Clone)]
pub struct HelmRelease {
    pub metadata: ObjectMeta,
    pub spec: HelmReleaseSpec,
    pub status: Option<HelmReleaseStatus>,
}

/// Model of a [`HelmRelease`]: its metadata, the parts of its spec the
/// controller decides on, and its status.
pub struct HelmReleaseView {
    pub metadata: ObjectMetaView,
    pub target_version: Option<Seq<char>>,
    pub routing_configured: bool,
    pub status: Option<HelmReleaseStatusView>,
}

impl View for HelmRelease {
    type V = HelmReleaseView;

    open spec fn view(&self) -> HelmReleaseView {
        HelmReleaseView {
            metadata: self.metadata@,
            target_version: opt_view(self.spec.target_version),
            routing_configured: self.spec.routing is Some,
            status: self.status.deep_view(),
        }
    }
}

} // verus!
