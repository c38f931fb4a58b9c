//! Properties of the finalizer list, the route ownership labels and the
//! release names of the two slots.
use vstd::prelude::*;

use super::cancellation::find_annotation;
use super::crd::{annotation_keys_distinct, HelmReleaseView, Slot};
use super::deletion::{spec_add_finalizer, spec_remove_finalizer};
use super::route::spec_ownership_labels;
use super::slots::spec_release_name;

verus! {

/// After adding the finalizer it is present, every earlier finalizer is
/// kept, and adding it again changes nothing.
pub proof fn law_add_finalizer(list: Seq<Seq<char>>)
    ensures
        spec_add_finalizer(list).contains("multitool.io/cleanup"@),
        forall|f: Seq<char>| list.contains(f) ==> #[trigger] spec_add_finalizer(list).contains(f),
        spec_add_finalizer(spec_add_finalizer(list)) == spec_add_finalizer(list),
{
    let a = spec_add_finalizer(list);
    if !list.contains("multitool.io/cleanup"@) {
        assert(a[list.len() as int] == "multitool.io/cleanup"@);
        assert forall|f: Seq<char>| list.contains(f) implies #[trigger] a.contains(f) by {
            let i = choose|i: int| 0 <= i < list.len() && list[i] == f;
            assert(a[i] == f);
        }
    }
}

/// After removing the finalizer it is absent, every other finalizer is kept,
/// and removing it after adding it leaves what removing it alone leaves.
pub proof fn law_remove_finalizer(list: Seq<Seq<char>>)
    ensures
        !spec_remove_finalizer(list).contains("multitool.io/cleanup"@),
        forall|f: Seq<char>|
            f != "multitool.io/cleanup"@ ==> (#[trigger] spec_remove_finalizer(list).contains(f) <==> list.contains(f)),
        spec_remove_finalizer(spec_add_finalizer(list)) == spec_remove_finalizer(list),
{
    let pred = |f: Seq<char>| f != "multitool.io/cleanup"@;
    let r = spec_remove_finalizer(list);
    if r.contains("multitool.io/cleanup"@) {
        list.lemma_filter_contains_rev(pred, "multitool.io/cleanup"@);
    }
    assert forall|f: Seq<char>| f != "multitool.io/cleanup"@ implies (#[trigger] r.contains(f) <==> list.contains(f)) by {
        if r.contains(f) {
            list.lemma_filter_contains_rev(pred, f);
        }
        if list.contains(f) {
            let i = choose|i: int| 0 <= i < list.len() && list[i] == f;
            list.lemma_filter_contains(pred, i);
        }
    }
    if !list.contains("multitool.io/cleanup"@) {
        list.lemma_filter_push("multitool.io/cleanup"@, pred);
    }
}

/// A route that carries the ownership labels of a release is owned by it.
pub proof fn law_own_labels_are_owned(hr: HelmReleaseView)
    ensures
        forall|i: int|
            0 <= i < 3 ==> spec_ownership_labels(hr).contains(#[trigger] spec_ownership_labels(hr)[i]),
{
    assert forall|i: int| 0 <= i < 3 implies spec_ownership_labels(hr).contains(
        #[trigger] spec_ownership_labels(hr)[i],
    ) by {
        assert(spec_ownership_labels(hr)[i] == spec_ownership_labels(hr)[i]);
    }
}

/// The two slots of one release never share a release name.
pub proof fn law_slot_release_names_differ(base: Seq<char>, slot: Slot)
    ensures
        spec_release_name(base, slot) != spec_release_name(base, slot.spec_other()),
{
    reveal_strlit("-red");
    reveal_strlit("-black");
    assert(spec_release_name(base, slot).len() != spec_release_name(base, slot.spec_other()).len());
}

/// With distinct keys, looking an annotation up finds a value exactly when
/// the pair of that key and value is among the annotations, as in a map.
pub proof fn law_annotation_lookup_is_map_lookup(
    anns: Seq<(Seq<char>, Seq<char>)>,
    key: Seq<char>,
    value: Seq<char>,
)
    requires
        annotation_keys_distinct(anns),
    ensures
        find_annotation(anns, key) == Some(value) <==> anns.contains((key, value)),
    decreases anns.len(),
{
    if anns.len() > 0 {
        let rest = anns.drop_first();
        assert(annotation_keys_distinct(rest)) by {
            assert forall|i: int, j: int| 0 <= i < j < rest.len() implies #[trigger] rest[i].0 != #[trigger] rest[j].0 by {
                assert(rest[i] == anns[i + 1] && rest[j] == anns[j + 1]);
            }
        }
        law_annotation_lookup_is_map_lookup(rest, key, value);
        if anns.contains((key, value)) {
            let k = choose|k: int| 0 <= k < anns.len() && anns[k] == (key, value);
            if k > 0 {
                assert(rest[k - 1] == anns[k]);
                if anns[0].0 == key {
                    assert(anns[0].0 != anns[k].0);
                }
            }
        }
        if rest.contains((key, value)) {
            let k = choose|k: int| 0 <= k < rest.len() && rest[k] == (key, value);
            assert(anns[k + 1] == (key, value));
        }
        if anns[0].0 == key && anns[0].1 == value {
            assert(anns[0] == (key, value));
        }
    }
}

} // verus!
