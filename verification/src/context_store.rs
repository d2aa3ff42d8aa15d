use vstd::prelude::*;

use crate::key_order::{key_lt, lemma_key_lt_ne};

use crate::additional_context::{
    lemma_lookup_at, lookup, same_entry, keys_sorted,
    AdditionalContextEntryView, AdditionalContextKind, AdditionalContextMap, ContextMapView,
};

verus! {

/// A piece of additional context ready to be handed to the model: untrusted context
/// as user input, application context as developer input.
pub enum AdditionalContextFragment {
    User { key: String, value: String },
    Developer { key: String, value: String },
}

/// What a fragment holds, as mathematical values.
pub ghost enum AdditionalContextFragmentView {
    User { key: Seq<char>, value: Seq<char> },
    Developer { key: Seq<char>, value: Seq<char> },
}

impl View for AdditionalContextFragment {
    type V = AdditionalContextFragmentView;

    open spec fn view(&self) -> AdditionalContextFragmentView {
        match self {
            AdditionalContextFragment::User { key, value } => AdditionalContextFragmentView::User {
                key: key@,
                value: value@,
            },
            AdditionalContextFragment::Developer { key, value } => {
                AdditionalContextFragmentView::Developer { key: key@, value: value@ }
            },
        }
    }
}

/// The fragment of the entry `entry` stored under `key`.
pub open spec fn fragment_view(
    key: Seq<char>,
    entry: AdditionalContextEntryView,
) -> AdditionalContextFragmentView {
    match entry.kind {
        AdditionalContextKind::Untrusted => AdditionalContextFragmentView::User {
            key,
            value: entry.value,
        },
        AdditionalContextKind::Application => AdditionalContextFragmentView::Developer {
            key,
            value: entry.value,
        },
    }
}

/// The views of a sequence of fragments.
pub open spec fn fragment_views(s: Seq<AdditionalContextFragment>) -> Seq<
    AdditionalContextFragmentView,
> {
    s.map_values(|f: AdditionalContextFragment| f@)
}

/// The fragments of the entries of `new`, in their order, that `old` does not hold
/// already: under a key that `old` lacks, or with another value or kind.
pub open spec fn changed_fragments(old: ContextMapView, new: ContextMapView) -> Seq<
    AdditionalContextFragmentView,
>
    decreases new.len(),
{
    if new.len() == 0 {
        Seq::empty()
    } else {
        let rest = changed_fragments(old, new.drop_last());
        if lookup(old, new.last().0) == Some(new.last().1) {
            rest
        } else {
            rest.push(fragment_view(new.last().0, new.last().1))
        }
    }
}

/// The fragments of all entries of `m`, in their order.
pub open spec fn all_fragments(m: ContextMapView) -> Seq<AdditionalContextFragmentView> {
    m.map_values(|e: (Seq<char>, AdditionalContextEntryView)| fragment_view(e.0, e.1))
}

/// The additional context that a session last handed to the model, so that only
/// what changed is handed again.
pub struct AdditionalContextStore {
    values: AdditionalContextMap,
}

impl View for AdditionalContextStore {
    type V = ContextMapView;

    closed spec fn view(&self) -> ContextMapView {
        self.values@
    }
}

impl Default for AdditionalContextStore {
    fn default() -> (s: Self)
        ensures
            s@ == Seq::<(Seq<char>, AdditionalContextEntryView)>::empty(),
    {
        AdditionalContextStore { values: AdditionalContextMap::new() }
    }
}

impl AdditionalContextStore {
    /// Forgets what was handed to the model, so that all of it is handed again.
    pub fn clear(&mut self)
        ensures
            final(self)@ == Seq::<(Seq<char>, AdditionalContextEntryView)>::empty(),
    {
        self.values = AdditionalContextMap::new();
    }

    /// Takes `values` as the current additional context and returns the fragments
    /// of its entries that differ from what the store held, in key order.
    pub fn merge(&mut self, values: AdditionalContextMap) -> (out: Vec<AdditionalContextFragment>)
        ensures
            final(self)@ == values@,
            fragment_views(out@) == changed_fragments(old(self)@, values@),
    {
        let n = values.len();
        let mut out: Vec<AdditionalContextFragment> = Vec::new();
        for i in 0..n
            invariant
                n == values@.len(),
                fragment_views(out@) == changed_fragments(self@, values@.take(i as int)),
        {
            let (key, entry) = values.entry_at(i);
            let changed = match self.values.get(key.as_str()) {
                Some(current) => !same_entry(current, entry),
                None => true,
            };
            let ghost before = out@;
            proof {
                assert(values@.take(i + 1).drop_last() =~= values@.take(i as int));
                assert(values@.take(i + 1).last() == values@[i as int]);
            }
            if changed {
                let fragment = match entry.kind {
                    AdditionalContextKind::Untrusted => AdditionalContextFragment::User {
                        key: key.clone(),
                        value: entry.value.clone(),
                    },
                    AdditionalContextKind::Application => AdditionalContextFragment::Developer {
                        key: key.clone(),
                        value: entry.value.clone(),
                    },
                };
                out.push(fragment);
                assert(fragment_views(out@) =~= fragment_views(before).push(
                    fragment_view(values@[i as int].0, values@[i as int].1),
                ));
            }
        }
        assert(values@.take(n as int) =~= values@);
        self.values = values;
        out
    }
}

/// Entries that the old context already holds are not handed again: a prefix of a
/// map all of whose entries `old` holds yields nothing.
proof fn lemma_held_prefix_emits_nothing(old: ContextMapView, m: ContextMapView, i: int)
    requires
        keys_sorted(m),
        0 <= i <= m.len(),
        old == m,
    ensures
        changed_fragments(old, m.take(i)) == Seq::<AdditionalContextFragmentView>::empty(),
    decreases i,
{
    if i > 0 {
        lemma_held_prefix_emits_nothing(old, m, i - 1);
        assert(m.take(i).drop_last() =~= m.take(i - 1));
        lemma_lookup_at(m, i - 1);
    }
}

/// Merging the context that a store already holds hands nothing to the model.
pub proof fn lemma_merge_unchanged_emits_nothing(values: ContextMapView)
    requires
        keys_sorted(values),
    ensures
        changed_fragments(values, values) == Seq::<AdditionalContextFragmentView>::empty(),
{
    lemma_held_prefix_emits_nothing(values, values, values.len() as int);
    assert(values.take(values.len() as int) =~= values);
}

/// After `clear`, a merge hands every entry to the model again, in key order.
pub proof fn lemma_merge_after_clear_emits_all(values: ContextMapView)
    ensures
        changed_fragments(Seq::<(Seq<char>, AdditionalContextEntryView)>::empty(), values)
            == all_fragments(values),
    decreases values.len(),
{
    if values.len() > 0 {
        lemma_merge_after_clear_emits_all(values.drop_last());
        assert(all_fragments(values) =~= all_fragments(values.drop_last()).push(
            fragment_view(values.last().0, values.last().1),
        ));
    } else {
        assert(all_fragments(values) =~= Seq::<AdditionalContextFragmentView>::empty());
    }
}

/// A merge never hands more fragments than the new context has entries.
pub proof fn lemma_merge_emits_at_most_all(old: ContextMapView, values: ContextMapView)
    ensures
        changed_fragments(old, values).len() <= values.len(),
    decreases values.len(),
{
    if values.len() > 0 {
        lemma_merge_emits_at_most_all(old, values.drop_last());
    }
}

/// Whether fragment `f` hands on the entry `entry` stored under `key`: untrusted
/// context as user input, application context as developer input, with the key and
/// the value of the entry.
pub open spec fn hands_on(
    f: AdditionalContextFragmentView,
    key: Seq<char>,
    entry: AdditionalContextEntryView,
) -> bool {
    match f {
        AdditionalContextFragmentView::User { key: k, value } => k == key && value == entry.value
            && entry.kind == AdditionalContextKind::Untrusted,
        AdditionalContextFragmentView::Developer { key: k, value } => k == key && value
            == entry.value && entry.kind == AdditionalContextKind::Application,
    }
}

/// Whether the old context holds `entry` under `key` with the same value and kind.
pub open spec fn holds_same(
    old: ContextMapView,
    key: Seq<char>,
    entry: AdditionalContextEntryView,
) -> bool {
    lookup(old, key) matches Some(e) && e.value == entry.value && e.kind == entry.kind
}

/// What a merge hands to the model, stated entry by entry: every entry of the new
/// context that the old one does not hold with the same value and kind (a new key,
/// an edited text or a changed kind) is handed on, in a fragment of its own kind;
/// nothing else is handed on; and an entry that the old context already holds is
/// not handed on again.
pub proof fn lemma_merge_hands_on_exactly_the_changed_entries(
    old: ContextMapView,
    new: ContextMapView,
)
    requires
        keys_sorted(new),
    ensures
        forall|i: int|
            0 <= i < new.len() && !holds_same(old, #[trigger] new[i].0, new[i].1) ==> exists|j: int|
                0 <= j < changed_fragments(old, new).len() && hands_on(
                    #[trigger] changed_fragments(old, new)[j],
                    new[i].0,
                    new[i].1,
                ),
        forall|j: int|
            0 <= j < changed_fragments(old, new).len() ==> exists|i: int|
                0 <= i < new.len() && !holds_same(old, #[trigger] new[i].0, new[i].1) && hands_on(
                    #[trigger] changed_fragments(old, new)[j],
                    new[i].0,
                    new[i].1,
                ),
        forall|i: int, j: int|
            0 <= i < new.len() && holds_same(old, #[trigger] new[i].0, new[i].1) && 0 <= j
                < changed_fragments(old, new).len() ==> !hands_on(
                #[trigger] changed_fragments(old, new)[j],
                new[i].0,
                new[i].1,
            ),
{
    lemma_changed_fragments_entries(old, new);
    let out = changed_fragments(old, new);
    assert forall|i: int, j: int|
        0 <= i < new.len() && holds_same(old, #[trigger] new[i].0, new[i].1) && 0 <= j
            < out.len() implies !hands_on(#[trigger] out[j], new[i].0, new[i].1) by {
        if hands_on(out[j], new[i].0, new[i].1) {
            let i2 = choose|i2: int|
                0 <= i2 < new.len() && !holds_same(old, #[trigger] new[i2].0, new[i2].1) && hands_on(
                    out[j],
                    new[i2].0,
                    new[i2].1,
                );
            // both fragments carry the same key, so they come from the same entry
            if i2 != i {
                if i < i2 {
                    assert(key_lt(new[i].0, new[i2].0));
                    lemma_key_lt_ne(new[i].0, new[i2].0);
                } else {
                    assert(key_lt(new[i2].0, new[i].0));
                    lemma_key_lt_ne(new[i2].0, new[i].0);
                }
            }
        }
    }
}

/// The entries that `changed_fragments` hands on, and only they.
proof fn lemma_changed_fragments_entries(old: ContextMapView, new: ContextMapView)
    ensures
        forall|i: int|
            0 <= i < new.len() && !holds_same(old, #[trigger] new[i].0, new[i].1) ==> exists|j: int|
                0 <= j < changed_fragments(old, new).len() && hands_on(
                    #[trigger] changed_fragments(old, new)[j],
                    new[i].0,
                    new[i].1,
                ),
        forall|j: int|
            0 <= j < changed_fragments(old, new).len() ==> exists|i: int|
                0 <= i < new.len() && !holds_same(old, #[trigger] new[i].0, new[i].1) && hands_on(
                    #[trigger] changed_fragments(old, new)[j],
                    new[i].0,
                    new[i].1,
                ),
    decreases new.len(),
{
    if new.len() > 0 {
        let t = new.drop_last();
        lemma_changed_fragments_entries(old, t);
        let rest = changed_fragments(old, t);
        let out = changed_fragments(old, new);
        let last = new.last();
        let n = new.len() - 1;
        assert(last == new[n]);
        assert(holds_same(old, last.0, last.1) <==> lookup(old, last.0) == Some(last.1));
        if !holds_same(old, last.0, last.1) {
            assert(out == rest.push(fragment_view(last.0, last.1)));
            assert(hands_on(out[rest.len() as int], last.0, last.1));
        } else {
            assert(out == rest);
        }
        assert forall|i: int|
            0 <= i < new.len() && !holds_same(old, #[trigger] new[i].0, new[i].1) implies exists|
                j: int,
            | 0 <= j < out.len() && hands_on(#[trigger] out[j], new[i].0, new[i].1) by {
            if i < n {
                assert(new[i] == t[i]);
                let j = choose|j: int|
                    0 <= j < rest.len() && hands_on(#[trigger] rest[j], t[i].0, t[i].1);
                assert(out[j] == rest[j]);
            } else {
                assert(hands_on(out[rest.len() as int], new[i].0, new[i].1));
            }
        }
        assert forall|j: int| 0 <= j < out.len() implies exists|i: int|
            0 <= i < new.len() && !holds_same(old, #[trigger] new[i].0, new[i].1) && hands_on(
                #[trigger] out[j],
                new[i].0,
                new[i].1,
            ) by {
            if j < rest.len() {
                assert(out[j] == rest[j]);
                let i = choose|i: int|
                    0 <= i < t.len() && !holds_same(old, #[trigger] t[i].0, t[i].1) && hands_on(
                        rest[j],
                        t[i].0,
                        t[i].1,
                    );
                assert(new[i] == t[i]);
            } else {
                assert(new[n] == last);
            }
        }
    }
}

/// The key that a fragment is handed under.
pub open spec fn fragment_key(f: AdditionalContextFragmentView) -> Seq<char> {
    match f {
        AdditionalContextFragmentView::User { key, .. } => key,
        AdditionalContextFragmentView::Developer { key, .. } => key,
    }
}

proof fn lemma_fragment_keys_below(old: ContextMapView, new: ContextMapView, k: Seq<char>)
    requires
        forall|i: int| 0 <= i < new.len() ==> key_lt(#[trigger] new[i].0, k),
    ensures
        forall|j: int|
            0 <= j < changed_fragments(old, new).len() ==> key_lt(
                fragment_key(#[trigger] changed_fragments(old, new)[j]),
                k,
            ),
    decreases new.len(),
{
    if new.len() > 0 {
        let t = new.drop_last();
        assert forall|i: int| 0 <= i < t.len() implies key_lt(#[trigger] t[i].0, k) by {
            assert(t[i] == new[i]);
        }
        lemma_fragment_keys_below(old, t, k);
        let rest = changed_fragments(old, t);
        let out = changed_fragments(old, new);
        assert(new.last() == new[new.len() - 1]);
        if lookup(old, new.last().0) != Some(new.last().1) {
            assert(out == rest.push(fragment_view(new.last().0, new.last().1)));
            assert forall|j: int| 0 <= j < out.len() implies key_lt(
                fragment_key(#[trigger] out[j]),
                k,
            ) by {
                if j < rest.len() {
                    assert(out[j] == rest[j]);
                }
            }
        }
    }
}

/// A merge hands its fragments on in the order of their keys, each key once.
pub proof fn lemma_merge_hands_on_in_key_order(old: ContextMapView, new: ContextMapView)
    requires
        keys_sorted(new),
    ensures
        forall|j1: int, j2: int|
            0 <= j1 < j2 < changed_fragments(old, new).len() ==> key_lt(
                fragment_key(#[trigger] changed_fragments(old, new)[j1]),
                fragment_key(#[trigger] changed_fragments(old, new)[j2]),
            ),
    decreases new.len(),
{
    if new.len() > 0 {
        let t = new.drop_last();
        let n = new.len() - 1;
        let last = new.last();
        assert(last == new[n]);
        assert forall|i: int, j: int| 0 <= i < j < t.len() implies key_lt(
            #[trigger] t[i].0,
            #[trigger] t[j].0,
        ) by {
            assert(t[i] == new[i] && t[j] == new[j]);
        }
        lemma_merge_hands_on_in_key_order(old, t);
        assert forall|i: int| 0 <= i < t.len() implies key_lt(#[trigger] t[i].0, last.0) by {
            assert(t[i] == new[i]);
        }
        lemma_fragment_keys_below(old, t, last.0);
        let rest = changed_fragments(old, t);
        let out = changed_fragments(old, new);
        if lookup(old, last.0) != Some(last.1) {
            assert(out == rest.push(fragment_view(last.0, last.1)));
            assert forall|j1: int, j2: int| 0 <= j1 < j2 < out.len() implies key_lt(
                fragment_key(#[trigger] out[j1]),
                fragment_key(#[trigger] out[j2]),
            ) by {
                assert(out[j1] == rest[j1]);
                if j2 < rest.len() {
                    assert(out[j2] == rest[j2]);
                }
            }
        }
    }
}

} // verus!
