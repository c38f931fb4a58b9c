//! Properties of the controller logic that relate several operations or
//! hold for every input.
use vstd::prelude::*;

use super::conditions::{find_condition, spec_is_condition_true, spec_set_condition, without_type};
use super::crd::{ConditionView, HelmReleaseStatusView, Slot, SlotStateView};
use super::route::spec_compute_weights;
use super::slots::{
    spec_canary_slot, spec_slot_state, status_with_slot_cleared, status_with_slot_promoted,
    status_with_slot_set,
};
use crate::time::Timestamp;

verus! {

// ---------------------------------------------------------------------------
// Slots
// ---------------------------------------------------------------------------

/// The opposite of the opposite slot is the slot itself, and no slot is its
/// own opposite.
pub proof fn law_other_is_an_involution(slot: Slot)
    ensures
        slot.spec_other().spec_other() == slot,
        slot.spec_other() != slot,
{
}

/// A new release never goes into the active slot: with an active slot, the
/// canary slot is the other one.
pub proof fn law_canary_slot_is_not_active(s: HelmReleaseStatusView)
    requires
        s.active_slot is Some,
    ensures
        spec_canary_slot(Some(s)) == s.active_slot->0.spec_other(),
        spec_canary_slot(Some(s)) != s.active_slot->0,
{
}

/// Reading a slot after recording its state gives that state, and the other
/// slot keeps what it had.
pub proof fn law_slot_state_read_after_write(s: HelmReleaseStatusView, slot: Slot, st: SlotStateView)
    ensures
        spec_slot_state(status_with_slot_set(s, slot, st), slot) == Some(st),
        spec_slot_state(status_with_slot_set(s, slot, st), slot.spec_other()) == spec_slot_state(s, slot.spec_other()),
{
}

/// Recording a slot's state twice keeps only the second.
pub proof fn law_slot_state_overwrite(s: HelmReleaseStatusView, slot: Slot, a: SlotStateView, b: SlotStateView)
    ensures
        status_with_slot_set(status_with_slot_set(s, slot, a), slot, b) == status_with_slot_set(s, slot, b),
{
}

/// After clearing a slot it has no state, and the other slot keeps what it had.
pub proof fn law_slot_state_cleared(s: HelmReleaseStatusView, slot: Slot)
    ensures
        spec_slot_state(status_with_slot_cleared(s, slot), slot) is None,
        spec_slot_state(status_with_slot_cleared(s, slot), slot.spec_other()) == spec_slot_state(s, slot.spec_other()),
{
}

/// Promoting a slot with recorded state makes it active at its recorded
/// version; promoting a slot without state changes nothing.
pub proof fn law_promote_slot(s: HelmReleaseStatusView, slot: Slot)
    ensures
        spec_slot_state(s, slot) matches Some(st) ==> {
            &&& status_with_slot_promoted(s, slot).active_slot == Some(slot)
            &&& status_with_slot_promoted(s, slot).active_version == Some(st.version)
            &&& status_with_slot_promoted(s, slot).slots == s.slots
        },
        spec_slot_state(s, slot) is None ==> status_with_slot_promoted(s, slot) == s,
{
}

// ---------------------------------------------------------------------------
// Weights
// ---------------------------------------------------------------------------

/// The active and canary weights always sum to 100, and the canary weight is
/// the requested one capped at 100.
pub proof fn law_weights_sum_to_hundred(canary_weight: u32)
    ensures
        spec_compute_weights(canary_weight).0 + spec_compute_weights(canary_weight).1 == 100,
        spec_compute_weights(canary_weight).1 == if canary_weight <= 100 {
            canary_weight
        } else {
            100
        },
{
}

// ---------------------------------------------------------------------------
// Conditions
// ---------------------------------------------------------------------------

/// Every condition that `without_type` keeps has another type.
pub proof fn lemma_without_type_excludes(cs: Seq<ConditionView>, t: Seq<char>)
    ensures
        forall|i: int| 0 <= i < without_type(cs, t).len() ==> #[trigger] without_type(cs, t)[i].condition_type != t,
{
    cs.filter_lemma(|c: ConditionView| c.condition_type != t);
}

/// Without a condition of type `t`, looking one up finds none.
pub proof fn lemma_find_absent(cs: Seq<ConditionView>, t: Seq<char>)
    requires
        forall|i: int| 0 <= i < cs.len() ==> #[trigger] cs[i].condition_type != t,
    ensures
        find_condition(cs, t) is None,
    decreases cs.len(),
{
    if cs.len() > 0 {
        assert(cs[0].condition_type != t);
        assert forall|i: int| 0 <= i < cs.drop_first().len() implies #[trigger] cs.drop_first()[i].condition_type != t by {
            assert(cs.drop_first()[i] == cs[i + 1]);
        }
        lemma_find_absent(cs.drop_first(), t);
    }
}

/// Appending a condition of type `t` to conditions of other types makes it
/// the one found for `t`.
pub proof fn lemma_find_appended(cs: Seq<ConditionView>, t: Seq<char>, c: ConditionView)
    requires
        forall|i: int| 0 <= i < cs.len() ==> #[trigger] cs[i].condition_type != t,
        c.condition_type == t,
    ensures
        find_condition(cs.push(c), t) == Some(c),
    decreases cs.len(),
{
    if cs.len() == 0 {
        assert(cs.push(c)[0] == c);
    } else {
        assert(cs.push(c)[0] == cs[0]);
        assert(cs.push(c).drop_first() =~= cs.drop_first().push(c));
        assert forall|i: int| 0 <= i < cs.drop_first().len() implies #[trigger] cs.drop_first()[i].condition_type != t by {
            assert(cs.drop_first()[i] == cs[i + 1]);
        }
        lemma_find_appended(cs.drop_first(), t, c);
    }
}

/// After setting a condition of type `t`, the condition found for `t` is the
/// one just set, with the given status, reason, message and generation; its
/// transition time is kept when the status did not change and is `now`
/// otherwise.
pub proof fn law_set_condition_then_get(
    cs: Seq<ConditionView>,
    t: Seq<char>,
    status: Seq<char>,
    reason: Option<Seq<char>>,
    message: Option<Seq<char>>,
    generation: Option<i64>,
    now: Timestamp,
)
    ensures
        find_condition(spec_set_condition(cs, t, status, reason, message, generation, now), t) matches Some(c) && {
            &&& c.status == status
            &&& c.reason == reason
            &&& c.message == message
            &&& c.observed_generation == generation
            &&& c.last_transition_time == match find_condition(cs, t) {
                Some(prev) => if prev.status == status {
                    prev.last_transition_time
                } else {
                    now
                },
                None => now,
            }
        },
{
    lemma_without_type_excludes(cs, t);
    let r = spec_set_condition(cs, t, status, reason, message, generation, now);
    lemma_find_appended(without_type(cs, t), t, r.last());
    assert(r == without_type(cs, t).push(r.last()));
}

/// After setting a condition of type `t`, exactly one condition has that
/// type.
pub proof fn law_set_condition_keeps_one_of_a_type(
    cs: Seq<ConditionView>,
    t: Seq<char>,
    status: Seq<char>,
    reason: Option<Seq<char>>,
    message: Option<Seq<char>>,
    generation: Option<i64>,
    now: Timestamp,
)
    ensures
        ({
            let r = spec_set_condition(cs, t, status, reason, message, generation, now);
            &&& r.len() >= 1
            &&& r.last().condition_type == t
            &&& forall|i: int| 0 <= i < r.len() - 1 ==> #[trigger] r[i].condition_type != t
        }),
{
    lemma_without_type_excludes(cs, t);
    let r = spec_set_condition(cs, t, status, reason, message, generation, now);
    assert forall|i: int| 0 <= i < r.len() - 1 implies #[trigger] r[i].condition_type != t by {
        assert(r[i] == without_type(cs, t)[i]);
    }
}

/// A condition set to `True` is true afterwards; one set to anything else is
/// not.
pub proof fn law_set_condition_truth(
    cs: Seq<ConditionView>,
    t: Seq<char>,
    status: Seq<char>,
    reason: Option<Seq<char>>,
    message: Option<Seq<char>>,
    generation: Option<i64>,
    now: Timestamp,
)
    ensures
        spec_is_condition_true(spec_set_condition(cs, t, status, reason, message, generation, now), t) == (status
            == "True"@),
{
    law_set_condition_keeps_one_of_a_type(cs, t, status, reason, message, generation, now);
    let r = spec_set_condition(cs, t, status, reason, message, generation, now);
    if status == "True"@ {
        assert(r[r.len() - 1].condition_type == t && r[r.len() - 1].status == "True"@);
    }
}

/// After clearing a type no condition of it remains, so it is neither found
/// nor true.
pub proof fn law_clear_condition(cs: Seq<ConditionView>, t: Seq<char>)
    ensures
        find_condition(without_type(cs, t), t) is None,
        !spec_is_condition_true(without_type(cs, t), t),
{
    lemma_without_type_excludes(cs, t);
    lemma_find_absent(without_type(cs, t), t);
}

/// Setting or clearing a condition of type `t` leaves the condition found
/// for any other type as it was.
pub proof fn law_conditions_of_other_types_unchanged(
    cs: Seq<ConditionView>,
    t: Seq<char>,
    u: Seq<char>,
    status: Seq<char>,
    reason: Option<Seq<char>>,
    message: Option<Seq<char>>,
    generation: Option<i64>,
    now: Timestamp,
)
    requires
        t != u,
    ensures
        find_condition(without_type(cs, t), u) == find_condition(cs, u),
        find_condition(spec_set_condition(cs, t, status, reason, message, generation, now), u) == find_condition(cs, u),
    decreases cs.len(),
{
    let pred = |c: ConditionView| c.condition_type != t;
    if cs.len() == 0 {
        assert(without_type(cs, t) =~= cs) by {
            reveal(Seq::filter);
        }
        lemma_set_condition_other_type(cs, t, u, status, reason, message, generation, now);
    } else {
        law_conditions_of_other_types_unchanged(cs.drop_first(), t, u, status, reason, message, generation, now);
        lemma_filter_prepend(cs.drop_first(), cs[0], pred);
        assert(cs =~= seq![cs[0]] + cs.drop_first());
        let rest = without_type(cs.drop_first(), t);
        if cs[0].condition_type != t {
            assert(without_type(cs, t) =~= seq![cs[0]] + rest);
            assert((seq![cs[0]] + rest).drop_first() =~= rest);
            let x = spec_set_condition(cs, t, status, reason, message, generation, now).last();
            assert((seq![cs[0]] + rest).push(x).drop_first() =~= rest.push(x));
        } else {
            assert(without_type(cs, t) =~= rest);
        }
        lemma_set_condition_other_type(cs.drop_first(), t, u, status, reason, message, generation, now);
        lemma_set_condition_other_type(cs, t, u, status, reason, message, generation, now);
    }
}

/// Looking up another type in conditions with one of type `t` appended is
/// looking it up before the append.
proof fn lemma_find_ignores_appended(cs: Seq<ConditionView>, u: Seq<char>, c: ConditionView)
    requires
        c.condition_type != u,
    ensures
        find_condition(cs.push(c), u) == find_condition(cs, u),
    decreases cs.len(),
{
    let p = cs.push(c);
    assert(p.len() > 0);
    if cs.len() == 0 {
        assert(p[0] == c);
        assert(p.drop_first() =~= Seq::<ConditionView>::empty());
        assert(find_condition(p.drop_first(), u) is None);
    } else {
        assert(p[0] == cs[0]);
        assert(p.drop_first() =~= cs.drop_first().push(c));
        lemma_find_ignores_appended(cs.drop_first(), u, c);
    }
}

proof fn lemma_set_condition_other_type(
    cs: Seq<ConditionView>,
    t: Seq<char>,
    u: Seq<char>,
    status: Seq<char>,
    reason: Option<Seq<char>>,
    message: Option<Seq<char>>,
    generation: Option<i64>,
    now: Timestamp,
)
    requires
        t != u,
        find_condition(without_type(cs, t), u) == find_condition(cs, u),
    ensures
        find_condition(spec_set_condition(cs, t, status, reason, message, generation, now), u) == find_condition(cs, u),
{
    let r = spec_set_condition(cs, t, status, reason, message, generation, now);
    lemma_find_ignores_appended(without_type(cs, t), u, r.last());
    assert(r == without_type(cs, t).push(r.last()));
}

/// Filtering a sequence with an element in front.
proof fn lemma_filter_prepend(s: Seq<ConditionView>, x: ConditionView, pred: spec_fn(ConditionView) -> bool)
    ensures
        (seq![x] + s).filter(pred) == if pred(x) {
            seq![x] + s.filter(pred)
        } else {
            s.filter(pred)
        },
{
    s.lemma_filter_prepend(x, pred);
    assert(seq![x] + s =~= s.insert(0, x));
}


/// Setting a condition of type `t` adds no condition of another type `u`:
/// if none had type `u` before, none has it after.
pub proof fn lemma_set_condition_adds_no_other_type(
    cs: Seq<ConditionView>,
    t: Seq<char>,
    u: Seq<char>,
    status: Seq<char>,
    reason: Option<Seq<char>>,
    message: Option<Seq<char>>,
    generation: Option<i64>,
    now: Timestamp,
)
    requires
        t != u,
        forall|i: int| 0 <= i < cs.len() ==> #[trigger] cs[i].condition_type != u,
    ensures
        ({
            let r = spec_set_condition(cs, t, status, reason, message, generation, now);
            forall|i: int| 0 <= i < r.len() ==> #[trigger] r[i].condition_type != u
        }),
{
    let r = spec_set_condition(cs, t, status, reason, message, generation, now);
    let w = without_type(cs, t);
    assert forall|i: int| 0 <= i < r.len() implies #[trigger] r[i].condition_type != u by {
        if i < w.len() {
            assert(r[i] == w[i]);
            assert(w.contains(w[i]));
            cs.lemma_filter_contains_rev(|c: ConditionView| c.condition_type != t, w[i]);
        }
    }
}

/// Whether a condition of type `u` is true is not changed by removing the
/// conditions of another type `t`.
pub proof fn lemma_without_other_type_keeps_truth(cs: Seq<ConditionView>, t: Seq<char>, u: Seq<char>)
    requires
        t != u,
    ensures
        spec_is_condition_true(without_type(cs, t), u) == spec_is_condition_true(cs, u),
{
    let pred = |c: ConditionView| c.condition_type != t;
    let w = without_type(cs, t);
    cs.filter_lemma(pred);
    if spec_is_condition_true(cs, u) {
        let i = choose|i: int| 0 <= i < cs.len() && #[trigger] cs[i].condition_type == u && cs[i].status == "True"@;
        assert(w.contains(cs[i]));
        let j = choose|j: int| 0 <= j < w.len() && w[j] == cs[i];
        assert(w[j].condition_type == u);
    }
    if spec_is_condition_true(w, u) {
        let j = choose|j: int| 0 <= j < w.len() && #[trigger] w[j].condition_type == u && w[j].status == "True"@;
        assert(w.contains(w[j]));
        cs.lemma_filter_contains_rev(pred, w[j]);
        let i = choose|i: int| 0 <= i < cs.len() && cs[i] == w[j];
        assert(cs[i].condition_type == u);
    }
}

/// Whether a condition of type `u` is true is not changed by setting a
/// condition of another type `t`.
pub proof fn law_set_condition_keeps_other_truth(
    cs: Seq<ConditionView>,
    t: Seq<char>,
    u: Seq<char>,
    status: Seq<char>,
    reason: Option<Seq<char>>,
    message: Option<Seq<char>>,
    generation: Option<i64>,
    now: Timestamp,
)
    requires
        t != u,
    ensures
        spec_is_condition_true(spec_set_condition(cs, t, status, reason, message, generation, now), u)
            == spec_is_condition_true(cs, u),
{
    lemma_without_other_type_keeps_truth(cs, t, u);
    let r = spec_set_condition(cs, t, status, reason, message, generation, now);
    let w = without_type(cs, t);
    assert(r == w.push(r.last()));
    if spec_is_condition_true(r, u) {
        let i = choose|i: int| 0 <= i < r.len() && #[trigger] r[i].condition_type == u && r[i].status == "True"@;
        assert(i < w.len());
        assert(w[i] == r[i]);
    }
    if spec_is_condition_true(w, u) {
        let j = choose|j: int| 0 <= j < w.len() && #[trigger] w[j].condition_type == u && w[j].status == "True"@;
        assert(r[j] == w[j]);
    }
}

} // verus!
