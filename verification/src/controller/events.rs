//! Kubernetes events describing the HelmRelease lifecycle, and log context.
use vstd::prelude::*;

use super::crd::{HelmRelease, RolloutPhase, Slot};
use crate::text::{decimal, format_decimal};

verus! {

/// Standard Kubernetes event type for normal operations.
pub const EVENT_TYPE_NORMAL: &'static str = "Normal";
/// Standard Kubernetes event type for warning conditions.
pub const EVENT_TYPE_WARNING: &'static str = "Warning";

pub const REASON_INITIAL_INSTALL: &'static str = "InitialInstall";
pub const REASON_CANARY_STARTED: &'static str = "CanaryStarted";
pub const REASON_WEIGHT_ADJUSTED: &'static str = "WeightAdjusted";
pub const REASON_PROMOTED: &'static str = "Promoted";
pub const REASON_ROLLED_BACK: &'static str = "RolledBack";
pub const REASON_ERRORED: &'static str = "Errored";
pub const REASON_CANCELLED: &'static str = "Cancelled";

/// A structured description of an event to emit.
#[derive(Debug, Clone, PartialEq, Eq)]
pub struct EventDescriptor {
    pub event_type: &'static str,
    pub reason: &'static str,
    pub message: String,
}

/// Model of an [`EventDescriptor`].
pub struct EventView {
    pub event_type: Seq<char>,
    pub reason: Seq<char>,
    pub message: Seq<char>,
}

impl View for EventDescriptor {
    type V = EventView;

    open spec fn view(&self) -> EventView {
        EventView { event_type: self.event_type@, reason: self.reason@, message: self.message@ }
    }
}

/// The event for an initial Helm install.
pub open spec fn spec_initial_install_event(version: Seq<char>, slot: Slot) -> EventView {
    EventView {
        event_type: "Normal"@,
        reason: "InitialInstall"@,
        message: "Initial install of version "@ + version + " into slot "@ + slot.spec_name(),
    }
}

/// Build the event descriptor for an initial Helm install.
pub fn initial_install_event(version: &str, slot: Slot) -> (r: EventDescriptor)
    ensures
        r@ == spec_initial_install_event(version@, slot),
{
    let mut message = "Initial install of version ".to_owned();
    message.append(version);
    message.append(" into slot ");
    message.append(slot.as_str());
    EventDescriptor { event_type: EVENT_TYPE_NORMAL, reason: REASON_INITIAL_INSTALL, message }
}

/// The event for a canary deployment starting.
pub open spec fn spec_canary_started_event(from_version: Seq<char>, to_version: Seq<char>, slot: Slot) -> EventView {
    EventView {
        event_type: "Normal"@,
        reason: "CanaryStarted"@,
        message: "Canary deployment started: "@ + from_version + " -> "@ + to_version + " in slot "@
            + slot.spec_name(),
    }
}

/// Build the event descriptor for a canary deployment starting.
pub fn canary_started_event(from_version: &str, to_version: &str, slot: Slot) -> (r: EventDescriptor)
    ensures
        r@ == spec_canary_started_event(from_version@, to_version@, slot),
{
    let mut message = "Canary deployment started: ".to_owned();
    message.append(from_version);
    message.append(" -> ");
    message.append(to_version);
    message.append(" in slot ");
    message.append(slot.as_str());
    EventDescriptor { event_type: EVENT_TYPE_NORMAL, reason: REASON_CANARY_STARTED, message }
}

/// The event for a canary weight adjustment.
pub open spec fn spec_weight_adjusted_event(weight: u32, slot: Slot) -> EventView {
    EventView {
        event_type: "Normal"@,
        reason: "WeightAdjusted"@,
        message: "Canary weight adjusted to "@ + decimal(weight as nat) + "% on slot "@ + slot.spec_name(),
    }
}

/// Build the event descriptor for a canary weight adjustment.
pub fn weight_adjusted_event(weight: u32, slot: Slot) -> (r: EventDescriptor)
    ensures
        r@ == spec_weight_adjusted_event(weight, slot),
{
    let mut message = "Canary weight adjusted to ".to_owned();
    let digits = format_decimal(weight as u64);
    message.append(digits.as_str());
    message.append("% on slot ");
    message.append(slot.as_str());
    EventDescriptor { event_type: EVENT_TYPE_NORMAL, reason: REASON_WEIGHT_ADJUSTED, message }
}

/// The event for a successful promotion.
pub open spec fn spec_promoted_event(version: Seq<char>, slot: Slot) -> EventView {
    EventView {
        event_type: "Normal"@,
        reason: "Promoted"@,
        message: "Version "@ + version + " promoted to production on slot "@ + slot.spec_name(),
    }
}

/// Build the event descriptor for a successful promotion.
pub fn promoted_event(version: &str, slot: Slot) -> (r: EventDescriptor)
    ensures
        r@ == spec_promoted_event(version@, slot),
{
    let mut message = "Version ".to_owned();
    message.append(version);
    message.append(" promoted to production on slot ");
    message.append(slot.as_str());
    EventDescriptor { event_type: EVENT_TYPE_NORMAL, reason: REASON_PROMOTED, message }
}

/// The event for a rollback.
pub open spec fn spec_rolled_back_event(from_version: Seq<char>, to_version: Seq<char>) -> EventView {
    EventView {
        event_type: "Warning"@,
        reason: "RolledBack"@,
        message: "Rolled back from "@ + to_version + " to "@ + from_version,
    }
}

/// Build the event descriptor for a rollback.
pub fn rolled_back_event(from_version: &str, to_version: &str) -> (r: EventDescriptor)
    ensures
        r@ == spec_rolled_back_event(from_version@, to_version@),
{
    let mut message = "Rolled back from ".to_owned();
    message.append(to_version);
    message.append(" to ");
    message.append(from_version);
    EventDescriptor { event_type: EVENT_TYPE_WARNING, reason: REASON_ROLLED_BACK, message }
}

/// The event for an errored rollout.
pub open spec fn spec_errored_event(message: Seq<char>) -> EventView {
    EventView { event_type: "Warning"@, reason: "Errored"@, message: "Rollout errored: "@ + message }
}

/// Build the event descriptor for an errored rollout.
pub fn errored_event(message: &str) -> (r: EventDescriptor)
    ensures
        r@ == spec_errored_event(message@),
{
    let mut text = "Rollout errored: ".to_owned();
    text.append(message);
    EventDescriptor { event_type: EVENT_TYPE_WARNING, reason: REASON_ERRORED, message: text }
}

/// The event for a cancelled rollout.
pub open spec fn spec_cancelled_event(to_version: Seq<char>) -> EventView {
    EventView {
        event_type: "Warning"@,
        reason: "Cancelled"@,
        message: "Rollout of version "@ + to_version + " cancelled"@,
    }
}

/// Build the event descriptor for a cancelled rollout.
pub fn cancelled_event(to_version: &str) -> (r: EventDescriptor)
    ensures
        r@ == spec_cancelled_event(to_version@),
{
    let mut message = "Rollout of version ".to_owned();
    message.append(to_version);
    message.append(" cancelled");
    EventDescriptor { event_type: EVENT_TYPE_WARNING, reason: REASON_CANCELLED, message }
}

/// The view of an optional string slice, or `default` when absent.
pub open spec fn str_or(o: Option<&str>, default: Seq<char>) -> Seq<char> {
    match o {
        Some(s) => s@,
        None => default,
    }
}

/// The event of a rollout phase.
pub open spec fn spec_event_for_phase(
    phase: RolloutPhase,
    from_version: Option<&str>,
    to_version: Seq<char>,
    slot: Option<Slot>,
) -> EventView {
    let slot = match slot {
        Some(s) => s,
        None => Slot::Red,
    };
    match phase {
        RolloutPhase::Promoted => spec_promoted_event(to_version, slot),
        RolloutPhase::RolledBack => spec_rolled_back_event(str_or(from_version, "unknown"@), to_version),
        RolloutPhase::Errored => spec_errored_event("rollout to "@ + to_version + " failed"@),
        RolloutPhase::Cancelled => spec_cancelled_event(to_version),
        RolloutPhase::InProgress => spec_canary_started_event(str_or(from_version, "none"@), to_version, slot),
    }
}

/// Map a rollout phase to its corresponding event descriptor.
pub fn event_for_phase(
    phase: RolloutPhase,
    from_version: Option<&str>,
    to_version: &str,
    slot: Option<Slot>,
) -> (r: EventDescriptor)
    ensures
        r@ == spec_event_for_phase(phase, from_version, to_version@, slot),
{
    let slot = match slot {
        Some(s) => s,
        None => Slot::Red,
    };
    match phase {
        RolloutPhase::Promoted => promoted_event(to_version, slot),
        RolloutPhase::RolledBack => {
            let from = match from_version {
                Some(v) => v,
                None => "unknown",
            };
            rolled_back_event(from, to_version)
        },
        RolloutPhase::Errored => {
            let mut message = "rollout to ".to_owned();
            message.append(to_version);
            message.append(" failed");
            errored_event(message.as_str())
        },
        RolloutPhase::Cancelled => cancelled_event(to_version),
        RolloutPhase::InProgress => {
            let from = match from_version {
                Some(v) => v,
                None => "none",
            };
            canary_started_event(from, to_version, slot)
        },
    }
}

/// Consistent logging fields of a HelmRelease.
#[derive(Debug, Clone)]
pub struct LogContext {
    pub name: String,
    pub namespace: String,
    pub phase: Option<String>,
    pub slot: Option<String>,
}

impl LogContext {
    /// Build a LogContext from a HelmRelease: its name and namespace
    /// (`<unknown>` when absent), the phase of its rollout and its active slot.
    pub fn from_hr(hr: &HelmRelease) -> (r: Self)
        ensures
            r.name@ == match hr@.metadata.name {
                Some(n) => n,
                None => "<unknown>"@,
            },
            r.namespace@ == match hr@.metadata.namespace {
                Some(n) => n,
                None => "<unknown>"@,
            },
            match r.phase {
                Some(p) => hr@.status matches Some(s) && s.rollout matches Some(ro) && p@ == ro.phase.spec_name(),
                None => !(hr@.status matches Some(s) && s.rollout is Some),
            },
            match r.slot {
                Some(sl) => hr@.status matches Some(s) && s.active_slot matches Some(a) && sl@ == a.spec_name(),
                None => !(hr@.status matches Some(s) && s.active_slot is Some),
            },
    {
        let name = match &hr.metadata.name {
            Some(n) => n.clone(),
            None => "<unknown>".to_owned(),
        };
        let namespace = match &hr.metadata.namespace {
            Some(n) => n.clone(),
            None => "<unknown>".to_owned(),
        };
        let (phase, slot) = match &hr.status {
            Some(s) => {
                let phase = match &s.rollout {
                    Some(r) => Some(r.phase.as_str().to_owned()),
                    None => None,
                };
                let slot = match s.active_slot {
                    Some(a) => Some(a.as_str().to_owned()),
                    None => None,
                };
                (phase, slot)
            },
            None => (None, None),
        };
        LogContext { name, namespace, phase, slot }
    }
}

} // verus!
