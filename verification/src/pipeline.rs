//! The aggregation pipeline: normalize each raw binding, merge records that
//! share a description, drop media-key noise, and sort by description.
//!
//! Each stage has a spec-level counterpart, and the pipeline's result is
//! pinned to the composition of those counterparts, so one snapshot has
//! exactly one possible output.

use vstd::prelude::*;
use vstd::string::StringExecFns;
use crate::binding::{combo_display, normalize, normalize_view, render_combo, KeyBinding,
    KeyBindingView, RawBinding, RawBindingView};
use crate::keysym::is_media_key;
use crate::text::{lex_leq, str_lex_leq};

verus! {

/// The views of a sequence of raw bindings.
pub open spec fn raw_views(s: Seq<RawBinding>) -> Seq<RawBindingView> {
    s.map_values(|r: RawBinding| r@)
}

/// The views of a sequence of canonical records.
pub open spec fn kb_views(s: Seq<KeyBinding>) -> Seq<KeyBindingView> {
    s.map_values(|b: KeyBinding| b@)
}

/// The normalizer applied to a whole snapshot, in order, keeping only the
/// bindings it accepts.
pub open spec fn normalized_views(s: Seq<RawBindingView>) -> Seq<KeyBindingView>
    decreases s.len(),
{
    if s.len() == 0 {
        Seq::empty()
    } else {
        normalized_views(s.drop_last()) + match normalize_view(s.last()) {
            Some(b) => seq![b],
            None => Seq::empty(),
        }
    }
}

/// A record survives the noise filter unless its key symbol resolves into
/// the reserved media/function-key namespace; a record without a key is
/// kept.
pub open spec fn keep_view(b: KeyBindingView) -> bool {
    match b.key {
        Some(k) => !is_media_key(k.raw),
        None => true,
    }
}

/// The noise filter applied to a whole list.
pub open spec fn filtered_views(s: Seq<KeyBindingView>) -> Seq<KeyBindingView> {
    s.filter(|b: KeyBindingView| keep_view(b))
}

/// Description order on records.
pub open spec fn desc_leq(a: KeyBindingView, b: KeyBindingView) -> bool {
    lex_leq(a.description, b.description)
}

/// Inserts a record into a description-sorted list, before the first record
/// it compares less-or-equal to.
pub open spec fn insert_sorted(b: KeyBindingView, s: Seq<KeyBindingView>) -> Seq<KeyBindingView>
    decreases s.len(),
{
    if s.len() == 0 {
        seq![b]
    } else if desc_leq(b, s[0]) {
        seq![b] + s
    } else {
        seq![s[0]] + insert_sorted(b, s.drop_first())
    }
}

/// Insertion sort by description, ascending and byte-wise.
pub open spec fn sorted_views(s: Seq<KeyBindingView>) -> Seq<KeyBindingView>
    decreases s.len(),
{
    if s.len() == 0 {
        Seq::empty()
    } else {
        insert_sorted(s.last(), sorted_views(s.drop_last()))
    }
}

/// Normalizes a whole snapshot, keeping input order.
pub fn normalize_all(snapshot: Vec<RawBinding>) -> (out: Vec<KeyBinding>)
    ensures
        kb_views(out@) == normalized_views(raw_views(snapshot@)),
{
    let ghost s0 = raw_views(snapshot@);
    let mut rest = snapshot;
    let mut out: Vec<KeyBinding> = Vec::new();
    let ghost mut k: int = 0;
    proof {
        assert(s0.take(0) =~= Seq::<RawBindingView>::empty());
        assert(kb_views(out@) =~= normalized_views(s0.take(0)));
    }
    while rest.len() > 0
        invariant
            0 <= k,
            k + rest@.len() == s0.len(),
            forall|i: int| 0 <= i < rest@.len() ==> rest@[i]@ == s0[k + i],
            kb_views(out@) == normalized_views(s0.take(k)),
        decreases rest@.len(),
    {
        let b = rest.remove(0);
        let ghost prev = kb_views(out@);
        proof {
            assert(b@ == s0[k]);
        }
        match normalize(b) {
            Some(nb) => {
                out.push(nb);
                proof {
                    assert(kb_views(out@) =~= prev + seq![nb@]);
                }
            },
            None => {},
        }
        proof {
            assert(s0.take(k + 1).drop_last() =~= s0.take(k));
            assert(s0.take(k + 1).last() == s0[k]);
            k = k + 1;
            if normalize_view(s0[k - 1]) is None {
                assert(kb_views(out@) =~= normalized_views(s0.take(k)));
            }
        }
    }
    proof {
        assert(s0.take(s0.len() as int) =~= s0);
    }
    out
}

/// Removes the records whose key symbol is a reserved media/function key.
pub fn drop_media_keys(list: Vec<KeyBinding>) -> (out: Vec<KeyBinding>)
    ensures
        kb_views(out@) == filtered_views(kb_views(list@)),
{
    let ghost s0 = kb_views(list@);
    let mut rest = list;
    let mut out: Vec<KeyBinding> = Vec::new();
    let ghost mut k: int = 0;
    proof {
        reveal(Seq::filter);
        assert(s0.take(0) =~= Seq::<KeyBindingView>::empty());
        assert(kb_views(out@) =~= filtered_views(s0.take(0)));
    }
    while rest.len() > 0
        invariant
            0 <= k,
            k + rest@.len() == s0.len(),
            forall|i: int| 0 <= i < rest@.len() ==> rest@[i]@ == s0[k + i],
            kb_views(out@) == filtered_views(s0.take(k)),
        decreases rest@.len(),
    {
        let b = rest.remove(0);
        let ghost prev = kb_views(out@);
        proof {
            reveal(Seq::filter);
            assert(b@ == s0[k]);
        }
        let keep = match &b.key {
            Some(key) => !crate::keysym::media_key(key),
            None => true,
        };
        if keep {
            out.push(b);
            proof {
                assert(kb_views(out@) =~= prev.push(s0[k]));
            }
        }
        proof {
            reveal(Seq::filter);
            assert(s0.take(k + 1).drop_last() =~= s0.take(k));
            assert(s0.take(k + 1).last() == s0[k]);
            k = k + 1;
            assert(kb_views(out@) =~= filtered_views(s0.take(k)));
        }
    }
    proof {
        assert(s0.take(s0.len() as int) =~= s0);
    }
    out
}

/// Inserting at the first admissible position is what `insert_sorted` does.
proof fn lemma_insert_sorted_at(b: KeyBindingView, s: Seq<KeyBindingView>, j: int)
    requires
        0 <= j <= s.len(),
        forall|i: int| 0 <= i < j ==> !desc_leq(b, s[i]),
        j < s.len() ==> desc_leq(b, s[j]),
    ensures
        insert_sorted(b, s) == s.take(j) + seq![b] + s.skip(j),
    decreases s.len(),
{
    if j == 0 {
        if s.len() == 0 {
            assert(insert_sorted(b, s) =~= s.take(0) + seq![b] + s.skip(0));
        } else {
            assert(seq![b] + s =~= s.take(0) + seq![b] + s.skip(0));
        }
    } else {
        assert(!desc_leq(b, s[0]));
        lemma_insert_sorted_at(b, s.drop_first(), j - 1);
        assert(seq![s[0]] + (s.drop_first().take(j - 1) + seq![b] + s.drop_first().skip(j - 1))
            =~= s.take(j) + seq![b] + s.skip(j));
    }
}

/// Inserts a record into a description-sorted vector.
fn insert_by_desc(out: &mut Vec<KeyBinding>, b: KeyBinding)
    ensures
        kb_views(final(out)@) == insert_sorted(b@, kb_views(old(out)@)),
{
    let ghost s0 = kb_views(old(out)@);
    let mut j: usize = 0;
    loop
        invariant
            j <= out@.len(),
            out@ == old(out)@,
            s0 == kb_views(out@),
            forall|i: int| 0 <= i < j ==> !desc_leq(b@, s0[i]),
        ensures
            j <= out@.len(),
            out@ == old(out)@,
            forall|i: int| 0 <= i < j ==> !desc_leq(b@, s0[i]),
            j < out@.len() ==> desc_leq(b@, s0[j as int]),
        decreases out@.len() - j,
    {
        if j >= out.len() {
            break;
        }
        if str_lex_leq(b.description.as_str(), out[j].description.as_str()) {
            break;
        }
        j = j + 1;
    }
    proof {
        lemma_insert_sorted_at(b@, s0, j as int);
    }
    out.insert(j, b);
    proof {
        assert(kb_views(final(out)@) =~= s0.take(j as int) + seq![b@] + s0.skip(j as int));
    }
}

/// Sorts the records by description, ascending and byte-wise.
pub fn sort_by_description(list: Vec<KeyBinding>) -> (out: Vec<KeyBinding>)
    ensures
        kb_views(out@) == sorted_views(kb_views(list@)),
{
    let ghost s0 = kb_views(list@);
    let mut rest = list;
    let mut out: Vec<KeyBinding> = Vec::new();
    let ghost mut k: int = 0;
    proof {
        assert(s0.take(0) =~= Seq::<KeyBindingView>::empty());
    }
    while rest.len() > 0
        invariant
            0 <= k,
            k + rest@.len() == s0.len(),
            forall|i: int| 0 <= i < rest@.len() ==> rest@[i]@ == s0[k + i],
            kb_views(out@) == sorted_views(s0.take(k)),
        decreases rest@.len(),
    {
        let b = rest.remove(0);
        proof {
            assert(b@ == s0[k]);
        }
        insert_by_desc(&mut out, b);
        proof {
            assert(s0.take(k + 1).drop_last() =~= s0.take(k));
            assert(s0.take(k + 1).last() == s0[k]);
            k = k + 1;
        }
    }
    proof {
        assert(s0.take(s0.len() as int) =~= s0);
    }
    out
}

/// The bindings that share one description, in input order.
pub open spec fn group_of(s: Seq<KeyBindingView>, d: Seq<char>) -> Seq<KeyBindingView> {
    s.filter(|b: KeyBindingView| b.description == d)
}

/// The distinct descriptions of a list, in first-encounter order.
pub open spec fn group_keys(s: Seq<KeyBindingView>) -> Seq<Seq<char>>
    decreases s.len(),
{
    if s.len() == 0 {
        Seq::empty()
    } else {
        let init = group_keys(s.drop_last());
        if init.contains(s.last().description) {
            init
        } else {
            init.push(s.last().description)
        }
    }
}

/// The record a group turns into: its first member, carrying the slash-join
/// of the first two members' default renderings when the group has two or
/// more; members beyond the second contribute nothing.
pub open spec fn merge_group(g: Seq<KeyBindingView>) -> KeyBindingView
    recommends
        g.len() >= 1,
{
    if g.len() >= 2 {
        KeyBindingView {
            keybind_display: Some(
                combo_display(g[0].modifiers, g[0].key) + " / "@ + combo_display(
                    g[1].modifiers,
                    g[1].key,
                ),
            ),
            ..g[0]
        }
    } else {
        g[0]
    }
}

/// The merger applied to a whole list: one record per distinct description,
/// in first-encounter order.
pub open spec fn merged_views(s: Seq<KeyBindingView>) -> Seq<KeyBindingView> {
    group_keys(s).map_values(|d: Seq<char>| merge_group(group_of(s, d)))
}

/// A description is a group key exactly when some record carries it.
pub proof fn lemma_group_keys_contains(s: Seq<KeyBindingView>, d: Seq<char>)
    ensures
        group_keys(s).contains(d) <==> exists|i: int| 0 <= i < s.len() && s[i].description == d,
    decreases s.len(),
{
    if s.len() > 0 {
        lemma_group_keys_contains(s.drop_last(), d);
        let init = group_keys(s.drop_last());
        if init.contains(s.last().description) {
            if group_keys(s).contains(d) {
                let i = choose|i: int| 0 <= i < s.drop_last().len() && s.drop_last()[i].description == d;
                assert(s[i].description == d);
            }
            if exists|i: int| 0 <= i < s.len() && s[i].description == d {
                let i = choose|i: int| 0 <= i < s.len() && s[i].description == d;
                if i < s.len() - 1 {
                    assert(s.drop_last()[i].description == d);
                } else {
                    assert(s.last().description == d);
                }
            }
        } else {
            if group_keys(s).contains(d) {
                let j = choose|j: int| 0 <= j < group_keys(s).len() && group_keys(s)[j] == d;
                if j < init.len() {
                    assert(init[j] == d);
                    assert(init.contains(d));
                    let i = choose|i: int| 0 <= i < s.drop_last().len() && s.drop_last()[i].description == d;
                    assert(s[i].description == d);
                } else {
                    assert(s[s.len() - 1].description == d);
                }
            }
            if exists|i: int| 0 <= i < s.len() && s[i].description == d {
                let i = choose|i: int| 0 <= i < s.len() && s[i].description == d;
                if i < s.len() - 1 {
                    assert(s.drop_last()[i].description == d);
                    let j = choose|j: int| 0 <= j < init.len() && init[j] == d;
                    assert(group_keys(s)[j] == d);
                } else {
                    assert(group_keys(s)[init.len() as int] == d);
                }
            }
        }
    }
}

/// Group keys are pairwise distinct.
pub proof fn lemma_group_keys_distinct(s: Seq<KeyBindingView>)
    ensures
        forall|i: int, j: int|
            0 <= i < j < group_keys(s).len() ==> group_keys(s)[i] != group_keys(s)[j],
    decreases s.len(),
{
    if s.len() > 0 {
        lemma_group_keys_distinct(s.drop_last());
        let init = group_keys(s.drop_last());
        if !init.contains(s.last().description) {
            assert forall|i: int, j: int|
                0 <= i < j < group_keys(s).len() implies group_keys(s)[i] != group_keys(s)[j] by {
                if j == init.len() {
                    assert(group_keys(s)[i] == init[i]);
                    if init[i] == s.last().description {
                        assert(init.contains(s.last().description));
                    }
                }
            }
        }
    }
}

/// Appending one record extends exactly its own description group.
proof fn lemma_group_of_push(s: Seq<KeyBindingView>, b: KeyBindingView, d: Seq<char>)
    ensures
        group_of(s.push(b), d) == if b.description == d {
            group_of(s, d).push(b)
        } else {
            group_of(s, d)
        },
{
    reveal(Seq::filter);
    assert(s.push(b).drop_last() =~= s);
    assert(s.push(b).last() == b);
}

/// A description that is no group key has an empty group.
pub proof fn lemma_group_of_members(s: Seq<KeyBindingView>, d: Seq<char>)
    ensures
        group_of(s, d).len() == 0 <==> !(exists|i: int|
            0 <= i < s.len() && s[i].description == d),
    decreases s.len(),
{
    reveal(Seq::filter);
    if s.len() > 0 {
        lemma_group_of_members(s.drop_last(), d);
        assert(group_of(s, d) == if s.last().description == d {
            group_of(s.drop_last(), d).push(s.last())
        } else {
            group_of(s.drop_last(), d)
        });
        if exists|i: int| 0 <= i < s.len() && s[i].description == d {
            let i = choose|i: int| 0 <= i < s.len() && s[i].description == d;
            if i < s.len() - 1 {
                assert(s.drop_last()[i].description == d);
            }
        }
        if exists|i: int| 0 <= i < s.drop_last().len() && s.drop_last()[i].description == d {
            let i = choose|i: int| 0 <= i < s.drop_last().len() && s.drop_last()[i].description == d;
            assert(s[i].description == d);
        }
    }
}

/// Finds the record that already carries this description.
fn find_by_desc(out: &Vec<KeyBinding>, d: &String) -> (r: Option<usize>)
    ensures
        match r {
            Some(j) => 0 <= j < out@.len() && kb_views(out@)[j as int].description == d@,
            None => forall|i: int| 0 <= i < out@.len() ==> kb_views(out@)[i].description != d@,
        },
{
    let mut j: usize = 0;
    while j < out.len()
        invariant
            j <= out@.len(),
            forall|i: int| 0 <= i < j ==> kb_views(out@)[i].description != d@,
        decreases out@.len() - j,
    {
        if out[j].description == *d {
            return Some(j);
        }
        j = j + 1;
    }
    None
}

/// Merges records that share a description: the first member of each group
/// becomes its record, and a group of two or more gets the slash-joined
/// rendering of its first two members. Groups keep first-encounter order.
pub fn merge_by_description(list: Vec<KeyBinding>) -> (out: Vec<KeyBinding>)
    ensures
        kb_views(out@) == merged_views(kb_views(list@)),
{
    broadcast use vstd::seq_lib::group_filter_ensures;

    let ghost s0 = kb_views(list@);
    let mut rest = list;
    let total = rest.len();
    let mut out: Vec<KeyBinding> = Vec::new();
    let mut sizes: Vec<usize> = Vec::new();
    let ghost mut k: int = 0;
    proof {
        assert(total == s0.len());
        assert(s0.take(0) =~= Seq::<KeyBindingView>::empty());
        assert(group_keys(s0.take(0)) =~= Seq::<Seq<char>>::empty());
        assert(kb_views(out@) =~= merged_views(s0.take(0)));
    }
    while rest.len() > 0
        invariant
            0 <= k,
            k + rest@.len() == s0.len(),
            s0.len() == total,
            forall|i: int| 0 <= i < rest@.len() ==> rest@[i]@ == s0[k + i],
            sizes@.len() == out@.len(),
            out@.len() == group_keys(s0.take(k)).len(),
            kb_views(out@) == merged_views(s0.take(k)),
            forall|i: int|
                0 <= i < out@.len() ==> kb_views(out@)[i].description == group_keys(s0.take(k))[i],
            forall|i: int|
                0 <= i < sizes@.len() ==> sizes@[i] as int == group_of(
                    s0.take(k),
                    group_keys(s0.take(k))[i],
                ).len(),
        decreases rest@.len(),
    {
        let b = rest.remove(0);
        let ghost p = s0.take(k);
        let ghost p_ext = s0.take(k + 1);
        let ghost d = b@.description;
        let ghost keys = group_keys(p);
        let ghost keys_ext = group_keys(p_ext);
        let ghost old_out = out@;
        let ghost old_sizes = sizes@;
        proof {
            assert(b@ == s0[k]);
            assert(p_ext.drop_last() =~= p);
            assert(p_ext.last() == s0[k]);
            assert(p.push(s0[k]) =~= p_ext);
            lemma_group_keys_distinct(p);
            lemma_group_keys_contains(p, d);
            lemma_group_of_members(p, d);
            assert forall|dd: Seq<char>| true implies #[trigger] group_of(p_ext, dd) == (if dd == d {
                group_of(p, dd).push(s0[k])
            } else {
                group_of(p, dd)
            }) by {
                lemma_group_of_push(p, s0[k], dd);
            }
        }
        match find_by_desc(&out, &b.description) {
            Some(j) => {
                proof {
                    assert(keys[j as int] == d);
                    assert(keys.contains(d));
                    assert(keys_ext == keys);
                    assert(group_of(p, d).len() <= p.len());
                    assert(old_sizes[j as int] as int == group_of(p, d).len());
                    assert(group_of(p, d).len() >= 1);
                }
                let n = sizes[j];
                let ghost g = group_of(p, d);
                let ghost g_ext = group_of(p_ext, d);
                proof {
                    assert(g_ext == g.push(s0[k]));
                    assert(g.len() == n as int);
                    assert(kb_views(old_out)[j as int] == merge_group(g));
                }
                if n == 1 {
                    let mut first = out.remove(j);
                    let left = render_combo(&first.modifiers, &first.key);
                    let right = render_combo(&b.modifiers, &b.key);
                    let disp = left.concat(" / ").concat(right.as_str());
                    first.keybind_display = Some(disp);
                    proof {
                        assert(g_ext.len() == 2);
                        assert(g_ext[0] == g[0]);
                        assert(g_ext[1] == s0[k]);
                        assert(merge_group(g) == g[0]);
                        assert(first@ =~= merge_group(g_ext));
                    }
                    let ghost fbind = first;
                    out.insert(j, first);
                    proof {
                        assert(out@ =~= old_out.update(j as int, fbind));
                    }
                }
                let n_now = sizes.remove(j);
                sizes.insert(j, n_now + 1);
                proof {
                    if n != 1 {
                        assert(g.len() >= 2);
                        assert(g_ext[0] == g[0]);
                        assert(g_ext[1] == g[1]);
                        assert(merge_group(g_ext) == merge_group(g));
                        assert(out@ == old_out);
                    }
                    assert(sizes@ =~= old_sizes.update(j as int, (n_now + 1) as usize));
                    assert(kb_views(out@).len() == keys_ext.len());
                    assert forall|i: int| 0 <= i < keys_ext.len() implies kb_views(out@)[i]
                        == merged_views(p_ext)[i] by {
                        if i == j {
                            assert(kb_views(out@)[i] == merge_group(g_ext));
                        } else {
                            assert(keys[i] != d);
                            assert(group_of(p_ext, keys[i]) == group_of(p, keys[i]));
                            assert(kb_views(out@)[i] == kb_views(old_out)[i]);
                        }
                    }
                    assert(kb_views(out@) =~= merged_views(p_ext));
                    assert forall|i: int| 0 <= i < sizes@.len() implies sizes@[i] as int
                        == group_of(p_ext, keys_ext[i]).len() by {
                        if i != j {
                            assert(keys[i] != d);
                            assert(group_of(p_ext, keys[i]) == group_of(p, keys[i]));
                        }
                    }
                    k = k + 1;
                }
            },
            None => {
                proof {
                    if keys.contains(d) {
                        let j = choose|j: int| 0 <= j < keys.len() && keys[j] == d;
                        assert(kb_views(out@)[j].description == d);
                    }
                    assert(!keys.contains(d));
                    assert(keys_ext =~= keys.push(d));
                    assert(group_of(p, d).len() == 0);
                }
                out.push(b);
                sizes.push(1);
                proof {
                    let g_ext = group_of(p_ext, d);
                    assert(g_ext == group_of(p, d).push(s0[k]));
                    assert(g_ext.len() == 1);
                    assert(g_ext[0] == s0[k]);
                    assert(merge_group(g_ext) == s0[k]);
                    assert forall|i: int| 0 <= i < keys.len() implies keys[i] != d by {
                        if keys[i] == d {
                            assert(keys.contains(d));
                        }
                    }
                    assert(kb_views(out@).len() == keys_ext.len());
                    assert forall|i: int| 0 <= i < keys_ext.len() implies kb_views(out@)[i]
                        == merged_views(p_ext)[i] by {
                        if i < keys.len() {
                            assert(keys_ext[i] == keys[i]);
                            assert(keys[i] != d);
                            assert(group_of(p_ext, keys[i]) == group_of(p, keys[i]));
                            assert(kb_views(out@)[i] == kb_views(old_out)[i]);
                        } else {
                            assert(keys_ext[i] == d);
                            assert(kb_views(out@)[i] == b@);
                        }
                    }
                    assert(kb_views(out@) =~= merged_views(p_ext));
                    assert forall|i: int| 0 <= i < sizes@.len() implies sizes@[i] as int
                        == group_of(p_ext, keys_ext[i]).len() by {
                        if i < keys.len() {
                            assert(keys[i] != d);
                            assert(group_of(p_ext, keys[i]) == group_of(p, keys[i]));
                            assert(sizes@[i] == old_sizes[i]);
                        }
                    }
                    k = k + 1;
                }
            },
        }
    }
    proof {
        assert(s0.take(s0.len() as int) =~= s0);
    }
    out
}

/// The whole pipeline over one snapshot: normalize, merge, drop noise, sort.
pub open spec fn pipeline_views(s: Seq<RawBindingView>) -> Seq<KeyBindingView> {
    sorted_views(filtered_views(merged_views(normalized_views(s))))
}

/// Builds the display-ready shortcut list from one settings snapshot.
pub fn build_keybindings(snapshot: Vec<RawBinding>) -> (out: Vec<KeyBinding>)
    ensures
        kb_views(out@) == pipeline_views(raw_views(snapshot@)),
{
    let normalized = normalize_all(snapshot);
    let merged = merge_by_description(normalized);
    let kept = drop_media_keys(merged);
    sort_by_description(kept)
}

} // verus!
