//! Slot management: release names, slot state, and promotion of a slot.
use vstd::prelude::*;

use super::crd::{opt_view, HelmReleaseStatus, HelmReleaseStatusView, Slot, SlotPair, SlotPairView, SlotState, SlotStateView};

verus! {

/// The release-name suffix of a slot.
pub open spec fn slot_suffix(slot: Slot) -> Seq<char> {
    match slot {
        Slot::Red => "-red"@,
        Slot::Black => "-black"@,
    }
}

/// The Helm release name of `slot` for the base name `base`.
pub open spec fn spec_release_name(base: Seq<char>, slot: Slot) -> Seq<char> {
    base + slot_suffix(slot)
}

/// Build the Helm release name for a given slot.
pub fn release_name(base: &str, slot: Slot) -> (r: String)
    ensures
        r@ == spec_release_name(base@, slot),
{
    let mut r = base.to_owned();
    match slot {
        Slot::Red => r.append("-red"),
        Slot::Black => r.append("-black"),
    }
    r
}

/// The slot a new (canary) release goes into: the one opposite the active
/// slot, or Red when nothing is active.
pub open spec fn spec_canary_slot(status: Option<HelmReleaseStatusView>) -> Slot {
    match status {
        Some(s) => match s.active_slot {
            Some(active) => active.spec_other(),
            None => Slot::Red,
        },
        None => Slot::Red,
    }
}

/// Determine which slot should host the canary (new) release.
pub fn canary_slot(status: Option<&HelmReleaseStatus>) -> (r: Slot)
    ensures
        r == spec_canary_slot(
            match status {
                Some(s) => Some(s@),
                None => None,
            },
        ),
{
    match status {
        Some(s) => match s.active_slot {
            Some(active) => active.other(),
            None => Slot::Red,
        },
        None => Slot::Red,
    }
}

/// The recorded state of `slot` in a status model.
pub open spec fn spec_slot_state(s: HelmReleaseStatusView, slot: Slot) -> Option<SlotStateView> {
    match s.slots {
        None => None,
        Some(p) => match slot {
            Slot::Red => p.red,
            Slot::Black => p.black,
        },
    }
}

/// A slot pair with the entry of `slot` replaced by `st`.
pub open spec fn pair_with(p: SlotPairView, slot: Slot, st: Option<SlotStateView>) -> SlotPairView {
    match slot {
        Slot::Red => SlotPairView { red: st, black: p.black },
        Slot::Black => SlotPairView { red: p.red, black: st },
    }
}

/// The status model after recording `st` as the state of `slot`.
pub open spec fn status_with_slot_set(
    s: HelmReleaseStatusView,
    slot: Slot,
    st: SlotStateView,
) -> HelmReleaseStatusView {
    let pair = match s.slots {
        Some(p) => p,
        None => SlotPairView { red: None, black: None },
    };
    HelmReleaseStatusView { slots: Some(pair_with(pair, slot, Some(st))), ..s }
}

/// The status model after forgetting the state of `slot`.
pub open spec fn status_with_slot_cleared(s: HelmReleaseStatusView, slot: Slot) -> HelmReleaseStatusView {
    match s.slots {
        Some(p) => HelmReleaseStatusView { slots: Some(pair_with(p, slot, None)), ..s },
        None => s,
    }
}

/// The status model after making `slot` active, when it has recorded state;
/// unchanged otherwise.
pub open spec fn status_with_slot_promoted(s: HelmReleaseStatusView, slot: Slot) -> HelmReleaseStatusView {
    match spec_slot_state(s, slot) {
        Some(st) => HelmReleaseStatusView {
            active_slot: Some(slot),
            active_version: Some(st.version),
            ..s
        },
        None => s,
    }
}

/// Record that a version has been installed into a slot.
pub fn set_slot_state(status: &mut HelmReleaseStatus, slot: Slot, version: String, release_name: String)
    ensures
        final(status)@ == status_with_slot_set(
            old(status)@,
            slot,
            SlotStateView { version: version@, release_name: release_name@ },
        ),
{
    let state = SlotState { version, release_name };
    let mut taken: Option<SlotPair> = None;
    std::mem::swap(&mut taken, &mut status.slots);
    let mut pair = match taken {
        Some(p) => p,
        None => SlotPair { red: None, black: None },
    };
    match slot {
        Slot::Red => pair.red = Some(state),
        Slot::Black => pair.black = Some(state),
    }
    status.slots = Some(pair);
}

/// Clear the state of a slot (e.g. after uninstalling its release).
pub fn clear_slot_state(status: &mut HelmReleaseStatus, slot: Slot)
    ensures
        final(status)@ == status_with_slot_cleared(old(status)@, slot),
{
    let mut taken: Option<SlotPair> = None;
    std::mem::swap(&mut taken, &mut status.slots);
    match taken {
        Some(mut pair) => {
            match slot {
                Slot::Red => pair.red = None,
                Slot::Black => pair.black = None,
            }
            status.slots = Some(pair);
        },
        None => {},
    }
}

/// Get the state of a specific slot.
pub fn get_slot_state(status: &HelmReleaseStatus, slot: Slot) -> (r: Option<&SlotState>)
    ensures
        r.deep_view() == spec_slot_state(status@, slot),
{
    match &status.slots {
        Some(pair) => match slot {
            Slot::Red => pair.red.as_ref(),
            Slot::Black => pair.black.as_ref(),
        },
        None => None,
    }
}

/// Swap the active slot to the given slot after a successful promotion.
///
/// Returns the new active version, or `None` (leaving the status unchanged)
/// if the slot has no recorded state.
pub fn promote_slot(status: &mut HelmReleaseStatus, new_active: Slot) -> (r: Option<String>)
    ensures
        final(status)@ == status_with_slot_promoted(old(status)@, new_active),
        opt_view(r) == match spec_slot_state(old(status)@, new_active) {
            Some(st) => Some(st.version),
            None => None,
        },
{
    let version = match get_slot_state(status, new_active) {
        Some(s) => s.version.clone(),
        None => {
            return None;
        },
    };
    status.active_slot = Some(new_active);
    status.active_version = Some(version.clone());
    Some(version)
}

} // verus!
