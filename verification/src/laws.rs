//! The engine's general guarantees, stated over the pipeline's spec-level
//! stages and proved once and for all.

use vstd::prelude::*;
use crate::binding::{combo_display, render_view, KeyBindingView, RawBindingView};
use crate::pipeline::{desc_leq, filtered_views, group_keys, group_of, insert_sorted, keep_view,
    lemma_group_keys_contains, lemma_group_keys_distinct, lemma_group_of_members, merge_group,
    merged_views, normalized_views, pipeline_views, sorted_views};
use crate::text::{lemma_lex_leq_total, lemma_lex_leq_trans};

verus! {

/// Determinism: one snapshot has exactly one pipeline output, so any two
/// results built from the same snapshot are byte-identical.
pub proof fn lemma_pipeline_deterministic(
    snapshot: Seq<RawBindingView>,
    r1: Seq<KeyBindingView>,
    r2: Seq<KeyBindingView>,
)
    requires
        r1 == pipeline_views(snapshot),
        r2 == pipeline_views(snapshot),
    ensures
        r1 == r2,
{
}

/// The raw bindings whose action is not the "disable" marker, in order.
pub open spec fn enabled_only(s: Seq<RawBindingView>) -> Seq<RawBindingView> {
    s.filter(|r: RawBindingView| !(r.action is Disable))
}

proof fn lemma_normalized_skips_disabled(s: Seq<RawBindingView>)
    ensures
        normalized_views(s) == normalized_views(enabled_only(s)),
    decreases s.len(),
{
    reveal(Seq::filter);
    if s.len() > 0 {
        lemma_normalized_skips_disabled(s.drop_last());
        let e = enabled_only(s);
        if s.last().action is Disable {
            assert(e == enabled_only(s.drop_last()));
            assert(normalized_views(s) =~= normalized_views(s.drop_last()));
        } else {
            assert(e == enabled_only(s.drop_last()).push(s.last()));
            assert(e.drop_last() =~= enabled_only(s.drop_last()));
            assert(e.last() == s.last());
            assert(normalized_views(e) == normalized_views(enabled_only(s.drop_last()))
                + match crate::binding::normalize_view(s.last()) {
                    Some(b) => seq![b],
                    None => Seq::empty(),
                });
        }
    }
}

/// Disabled exclusion: bindings carrying the "disable" marker contribute
/// nothing anywhere — the pipeline's output is the same as if they had
/// never been in the snapshot.
pub proof fn lemma_disabled_excluded(s: Seq<RawBindingView>)
    ensures
        pipeline_views(s) == pipeline_views(enabled_only(s)),
{
    lemma_normalized_skips_disabled(s);
}

proof fn lemma_merged_descriptions(s: Seq<KeyBindingView>)
    ensures
        merged_views(s).len() == group_keys(s).len(),
        forall|i: int|
            0 <= i < merged_views(s).len() ==> #[trigger] merged_views(s)[i].description
                == group_keys(s)[i],
{
    broadcast use vstd::seq_lib::group_filter_ensures;

    assert forall|i: int|
        0 <= i < merged_views(s).len() implies #[trigger] merged_views(s)[i].description
        == group_keys(s)[i] by {
        let dd = group_keys(s)[i];
        assert(group_keys(s).contains(dd));
        lemma_group_keys_contains(s, dd);
        lemma_group_of_members(s, dd);
        let g = group_of(s, dd);
        assert(g.len() > 0);
        assert(g[0].description == dd);
        assert(merged_views(s)[i] == merge_group(g));
    }
}

/// Grouping correctness: a description shared by two or more records is
/// represented by exactly one merged record, whose display string is the
/// slash-join of the first two members' default renderings; members beyond
/// the second contribute nothing to it.
pub proof fn lemma_grouping_correct(s: Seq<KeyBindingView>, d: Seq<char>)
    requires
        group_of(s, d).len() >= 2,
    ensures
        exists|j: int|
            0 <= j < merged_views(s).len() && #[trigger] merged_views(s)[j].description == d,
        forall|j1: int, j2: int|
            (0 <= j1 < merged_views(s).len() && merged_views(s)[j1].description == d && 0 <= j2
                < merged_views(s).len() && merged_views(s)[j2].description == d) ==> j1 == j2,
        forall|j: int|
            (0 <= j < merged_views(s).len() && #[trigger] merged_views(s)[j].description == d)
                ==> merged_views(s)[j] == merge_group(group_of(s, d))
                && merged_views(s)[j].keybind_display == Some(
                combo_display(group_of(s, d)[0].modifiers, group_of(s, d)[0].key) + " / "@
                    + combo_display(group_of(s, d)[1].modifiers, group_of(s, d)[1].key),
            ),
{
    lemma_merged_descriptions(s);
    lemma_group_keys_distinct(s);
    lemma_group_keys_contains(s, d);
    lemma_group_of_members(s, d);
    assert(group_keys(s).contains(d));
    let j = choose|j: int| 0 <= j < group_keys(s).len() && group_keys(s)[j] == d;
    assert(merged_views(s)[j].description == d);
}

/// Single-member pass-through: a description carried by exactly one record
/// is represented by that record unchanged, and — its merged display never
/// having been set — it renders by the plain modifier-and-key rule, with no
/// slash.
pub proof fn lemma_single_member_passthrough(s: Seq<KeyBindingView>, d: Seq<char>)
    requires
        group_of(s, d).len() == 1,
    ensures
        exists|j: int|
            0 <= j < merged_views(s).len() && #[trigger] merged_views(s)[j].description == d,
        forall|j1: int, j2: int|
            (0 <= j1 < merged_views(s).len() && merged_views(s)[j1].description == d && 0 <= j2
                < merged_views(s).len() && merged_views(s)[j2].description == d) ==> j1 == j2,
        forall|j: int|
            (0 <= j < merged_views(s).len() && #[trigger] merged_views(s)[j].description == d)
                ==> merged_views(s)[j] == group_of(s, d)[0],
        group_of(s, d)[0].keybind_display is None ==> forall|j: int|
            (0 <= j < merged_views(s).len() && #[trigger] merged_views(s)[j].description == d)
                ==> render_view(merged_views(s)[j]) == combo_display(
                group_of(s, d)[0].modifiers,
                group_of(s, d)[0].key,
            ),
{
    lemma_merged_descriptions(s);
    lemma_group_keys_distinct(s);
    lemma_group_keys_contains(s, d);
    lemma_group_of_members(s, d);
    assert(group_keys(s).contains(d));
    let j = choose|j: int| 0 <= j < group_keys(s).len() && group_keys(s)[j] == d;
    assert(merged_views(s)[j].description == d);
}

/// Noise removal: the filter keeps exactly the records that are not
/// reserved media/function keys; in particular a record with no key symbol
/// at all is kept.
pub proof fn lemma_noise_removed(s: Seq<KeyBindingView>)
    ensures
        forall|i: int|
            0 <= i < filtered_views(s).len() ==> keep_view(#[trigger] filtered_views(s)[i]),
        forall|i: int|
            0 <= i < s.len() && keep_view(#[trigger] s[i]) ==> filtered_views(s).contains(s[i]),
{
    broadcast use vstd::seq_lib::group_filter_ensures;

}

proof fn lemma_insert_sorted_props(b: KeyBindingView, s: Seq<KeyBindingView>)
    requires
        forall|i: int, j: int| 0 <= i < j < s.len() ==> desc_leq(s[i], s[j]),
    ensures
        forall|i: int, j: int|
            0 <= i < j < insert_sorted(b, s).len() ==> desc_leq(
                insert_sorted(b, s)[i],
                insert_sorted(b, s)[j],
            ),
        insert_sorted(b, s).to_multiset() == s.to_multiset().insert(b),
        insert_sorted(b, s).len() == s.len() + 1,
    decreases s.len(),
{
    broadcast use vstd::seq_lib::group_to_multiset_ensures;
    broadcast use vstd::multiset::group_multiset_axioms;

    let r = insert_sorted(b, s);
    if s.len() == 0 {
        assert(seq![b] =~= Seq::<KeyBindingView>::empty().push(b));
        assert(r.to_multiset() =~= s.to_multiset().insert(b));
    } else if desc_leq(b, s[0]) {
        assert forall|i: int, j: int| 0 <= i < j < r.len() implies desc_leq(r[i], r[j]) by {
            if i == 0 && j > 1 {
                assert(desc_leq(s[0], s[j - 1]));
                lemma_lex_leq_trans(b.description, s[0].description, s[j - 1].description);
            }
        }
        vstd::seq_lib::lemma_multiset_commutative(seq![b], s);
        assert(seq![b] =~= Seq::<KeyBindingView>::empty().push(b));
        assert(r.to_multiset() =~= s.to_multiset().insert(b));
    } else {
        let rest = s.drop_first();
        assert forall|i: int, j: int| 0 <= i < j < rest.len() implies desc_leq(
            rest[i],
            rest[j],
        ) by {
            assert(desc_leq(s[i + 1], s[j + 1]));
        }
        lemma_insert_sorted_props(b, rest);
        let rr = insert_sorted(b, rest);
        lemma_lex_leq_total(b.description, s[0].description);
        assert forall|i: int, j: int| 0 <= i < j < r.len() implies desc_leq(r[i], r[j]) by {
            if i == 0 {
                let x = rr[j - 1];
                assert(rr.contains(x));
                assert(rr.to_multiset().count(x) > 0);
                if x != b {
                    assert(rest.to_multiset().count(x) > 0);
                    assert(rest.contains(x));
                    let m = choose|m: int| 0 <= m < rest.len() && rest[m] == x;
                    assert(desc_leq(s[0], s[m + 1]));
                }
            } else {
                assert(desc_leq(rr[i - 1], rr[j - 1]));
            }
        }
        vstd::seq_lib::lemma_multiset_commutative(seq![s[0]], rr);
        vstd::seq_lib::lemma_multiset_commutative(seq![s[0]], rest);
        assert(seq![s[0]] + rest =~= s);
        assert(seq![s[0]] =~= Seq::<KeyBindingView>::empty().push(s[0]));
        assert(r.to_multiset() =~= s.to_multiset().insert(b));
    }
}

/// Sort order: the sorter emits the same records, reordered so that
/// descriptions are non-decreasing under byte-wise comparison.
pub proof fn lemma_sort_props(s: Seq<KeyBindingView>)
    ensures
        forall|i: int, j: int|
            0 <= i < j < sorted_views(s).len() ==> desc_leq(
                sorted_views(s)[i],
                sorted_views(s)[j],
            ),
        sorted_views(s).to_multiset() == s.to_multiset(),
        sorted_views(s).len() == s.len(),
    decreases s.len(),
{
    broadcast use vstd::seq_lib::group_to_multiset_ensures;
    broadcast use vstd::multiset::group_multiset_axioms;

    if s.len() > 0 {
        lemma_sort_props(s.drop_last());
        lemma_insert_sorted_props(s.last(), sorted_views(s.drop_last()));
        assert(s.drop_last().push(s.last()) =~= s);
        assert(s.drop_last().to_multiset().insert(s.last()) =~= s.to_multiset());
    }
}

/// The pipeline's output is sorted by description, ascending and
/// byte-wise, and holds exactly the merged, noise-filtered records.
pub proof fn lemma_pipeline_sorted(s: Seq<RawBindingView>)
    ensures
        forall|i: int, j: int|
            0 <= i < j < pipeline_views(s).len() ==> desc_leq(
                pipeline_views(s)[i],
                pipeline_views(s)[j],
            ),
        pipeline_views(s).to_multiset() == filtered_views(
            merged_views(normalized_views(s)),
        ).to_multiset(),
{
    lemma_sort_props(filtered_views(merged_views(normalized_views(s))));
}

/// Empty-input safety: an empty snapshot flows through every stage into an
/// empty, well-formed output.
pub proof fn lemma_empty_snapshot()
    ensures
        pipeline_views(Seq::<RawBindingView>::empty()) == Seq::<KeyBindingView>::empty(),
{
    reveal(Seq::filter);
    let e = Seq::<RawBindingView>::empty();
    assert(normalized_views(e) == Seq::<KeyBindingView>::empty());
    assert(group_keys(Seq::<KeyBindingView>::empty()) == Seq::<Seq<char>>::empty());
    assert(merged_views(normalized_views(e)) =~= Seq::<KeyBindingView>::empty());
    assert(filtered_views(Seq::<KeyBindingView>::empty()) =~= Seq::<KeyBindingView>::empty());
    assert(sorted_views(Seq::<KeyBindingView>::empty()) == Seq::<KeyBindingView>::empty());
}

} // verus!
