use vstd::prelude::*;

use crate::key_order::{key_less, key_lt, lemma_key_lt_ne, lemma_key_lt_total, lemma_key_lt_transitive};
use crate::text::str_eq;

verus! {

/// How far the model may trust a piece of additional context.
#[derive(Clone, Copy, PartialEq, Eq, Structural, Debug)]
pub enum AdditionalContextKind {
    /// Supplied by a user or a client: handed to the model as user input.
    Untrusted,
    /// Supplied by the application itself: handed to the model as developer input.
    Application,
}

/// A piece of additional context for the model.
pub struct AdditionalContextEntry {
    pub value: String,
    pub kind: AdditionalContextKind,
}

/// What an entry holds, as mathematical values.
pub ghost struct AdditionalContextEntryView {
    pub value: Seq<char>,
    pub kind: AdditionalContextKind,
}

impl View for AdditionalContextEntry {
    type V = AdditionalContextEntryView;

    open spec fn view(&self) -> AdditionalContextEntryView {
        AdditionalContextEntryView { value: self.value@, kind: self.kind }
    }
}

impl Clone for AdditionalContextEntry {
    fn clone(&self) -> (r: Self)
        ensures
            r@ == self@,
    {
        AdditionalContextEntry { value: self.value.clone(), kind: self.kind }
    }
}

/// Whether two entries hold the same value and kind.
pub fn same_entry(a: &AdditionalContextEntry, b: &AdditionalContextEntry) -> (r: bool)
    ensures
        r == (a@ == b@),
{
    str_eq(a.value.as_str(), b.value.as_str()) && a.kind == b.kind
}

/// The entries of a context map, in the order of their keys.
pub type ContextMapView = Seq<(Seq<char>, AdditionalContextEntryView)>;

/// Whether the keys of `s` strictly increase: each key occurs once, in order.
pub open spec fn keys_sorted(s: ContextMapView) -> bool {
    forall|i: int, j: int| 0 <= i < j < s.len() ==> key_lt(#[trigger] s[i].0, #[trigger] s[j].0)
}

/// The entry stored under `key`, if any.
pub open spec fn lookup(s: ContextMapView, key: Seq<char>) -> Option<AdditionalContextEntryView>
    decreases s.len(),
{
    if s.len() == 0 {
        None
    } else if s.last().0 == key {
        Some(s.last().1)
    } else {
        lookup(s.drop_last(), key)
    }
}

/// With sorted keys, an entry is found under its own key.
pub proof fn lemma_lookup_at(s: ContextMapView, i: int)
    requires
        keys_sorted(s),
        0 <= i < s.len(),
    ensures
        lookup(s, s[i].0) == Some(s[i].1),
    decreases s.len(),
{
    if i < s.len() - 1 {
        assert(key_lt(s[i].0, s[s.len() - 1].0));
        lemma_key_lt_ne(s[i].0, s[s.len() - 1].0);
        let t = s.drop_last();
        assert(keys_sorted(t));
        assert(t[i] == s[i]);
        lemma_lookup_at(t, i);
    }
}

/// A key that no entry has is found nowhere; a key that is found is some entry's.
pub proof fn lemma_lookup_some(s: ContextMapView, key: Seq<char>)
    ensures
        lookup(s, key) is Some <==> exists|i: int| 0 <= i < s.len() && #[trigger] s[i].0 == key,
        lookup(s, key) matches Some(v) ==> exists|i: int|
            0 <= i < s.len() && #[trigger] s[i].0 == key && s[i].1 == v,
    decreases s.len(),
{
    if s.len() > 0 {
        let t = s.drop_last();
        lemma_lookup_some(t, key);
        if s.last().0 != key {
            if exists|i: int| 0 <= i < s.len() && #[trigger] s[i].0 == key {
                let i = choose|i: int| 0 <= i < s.len() && #[trigger] s[i].0 == key;
                assert(t[i].0 == key);
            }
            if lookup(t, key) is Some {
                let i = choose|i: int| 0 <= i < t.len() && #[trigger] t[i].0 == key && t[i].1 == lookup(t, key)->0;
                assert(s[i] == t[i]);
            }
        } else {
            assert(s[s.len() - 1].0 == key);
        }
    }
}

/// A map from text keys to additional-context entries, kept in the order of its
/// keys, each key once: the iteration order of a `BTreeMap<String, _>`.
pub struct AdditionalContextMap {
    entries: Vec<(String, AdditionalContextEntry)>,
}

impl View for AdditionalContextMap {
    type V = ContextMapView;

    closed spec fn view(&self) -> ContextMapView {
        self.entries@.map_values(|e: (String, AdditionalContextEntry)| (e.0@, e.1@))
    }
}

impl AdditionalContextMap {
    #[verifier::type_invariant]
    spec fn inv(self) -> bool {
        keys_sorted(self@)
    }

    /// The map without entries.
    pub fn new() -> (m: AdditionalContextMap)
        ensures
            m@ == Seq::<(Seq<char>, AdditionalContextEntryView)>::empty(),
    {
        let m = AdditionalContextMap { entries: Vec::new() };
        assert(m@ =~= Seq::<(Seq<char>, AdditionalContextEntryView)>::empty());
        m
    }

    /// How many keys the map holds.
    pub fn len(&self) -> (n: usize)
        ensures
            n == self@.len(),
    {
        self.entries.len()
    }

    /// The key and entry at position `i` in key order.
    pub fn entry_at(&self, i: usize) -> (r: (&String, &AdditionalContextEntry))
        requires
            i < self@.len(),
        ensures
            r.0@ == self@[i as int].0,
            r.1@ == self@[i as int].1,
    {
        let e = &self.entries[i];
        (&e.0, &e.1)
    }

    /// The entry under `key`, if any.
    pub fn get(&self, key: &str) -> (r: Option<&AdditionalContextEntry>)
        ensures
            r is Some <==> lookup(self@, key@) is Some,
            r matches Some(e) ==> lookup(self@, key@) == Some(e@),
    {
        proof {
            use_type_invariant(self);
        }
        let n = self.entries.len();
        for i in 0..n
            invariant
                n == self@.len(),
                keys_sorted(self@),
                forall|j: int| 0 <= j < i ==> #[trigger] self@[j].0 != key@,
        {
            assert(self@[i as int].0 == self.entries@[i as int].0@);
            if str_eq(self.entries[i].0.as_str(), key) {
                proof {
                    lemma_lookup_at(self@, i as int);
                }
                return Some(&self.entries[i].1);
            }
        }
        proof {
            lemma_lookup_some(self@, key@);
        }
        None
    }

    /// Stores `entry` under `key`, in place of the entry that the key held.
    pub fn insert(&mut self, key: String, entry: AdditionalContextEntry)
        ensures
            forall|k: Seq<char>|
                #![trigger lookup(final(self)@, k)]
                lookup(final(self)@, k) == if k == key@ {
                    Some(entry@)
                } else {
                    lookup(old(self)@, k)
                },
            keys_sorted(final(self)@),
    {
        proof {
            use_type_invariant(&*self);
        }
        let ghost old_view = self@;
        let n = self.entries.len();
        let mut pos: usize = 0;
        while pos < n && key_less(self.entries[pos].0.as_str(), key.as_str())
            invariant
                n == self@.len(),
                self@ == old_view,
                keys_sorted(old_view),
                pos <= n,
                forall|j: int| 0 <= j < pos ==> key_lt(#[trigger] old_view[j].0, key@),
            decreases n - pos,
        {
            assert(old_view[pos as int].0 == self.entries@[pos as int].0@);
            pos = pos + 1;
        }
        assert forall|j: int| pos <= j < n implies !key_lt(#[trigger] old_view[j].0, key@) by {
            if pos < n {
                assert(old_view[pos as int].0 == self.entries@[pos as int].0@);
                assert(!key_lt(old_view[pos as int].0, key@));
                if j > pos && key_lt(old_view[j].0, key@) {
                    assert(key_lt(old_view[pos as int].0, old_view[j].0));
                    lemma_key_lt_transitive(old_view[pos as int].0, old_view[j].0, key@);
                }
            }
        }
        let replace = pos < n && str_eq(self.entries[pos].0.as_str(), key.as_str());
        let ghost new_pair = (key@, entry@);
        let mut entries: Vec<(String, AdditionalContextEntry)> = Vec::new();
        std::mem::swap(&mut entries, &mut self.entries);
        let ghost old_entries = entries@;
        assert(old_view == old_entries.map_values(
            |e: (String, AdditionalContextEntry)| (e.0@, e.1@),
        ));
        if replace {
            assert(old_view[pos as int].0 == old_entries[pos as int].0@);
            entries.remove(pos);
            entries.insert(pos, (key, entry));
            proof {
                lemma_replace_at(old_view, pos as int, new_pair);
            }
            assert(entries@.map_values(|e: (String, AdditionalContextEntry)| (e.0@, e.1@))
                =~= old_view.update(pos as int, new_pair));
        } else {
            proof {
                if pos < n {
                    assert(old_view[pos as int].0 == old_entries[pos as int].0@);
                }
            }
            entries.insert(pos, (key, entry));
            proof {
                lemma_insert_at(old_view, pos as int, new_pair);
            }
            assert(entries@.map_values(|e: (String, AdditionalContextEntry)| (e.0@, e.1@))
                =~= old_view.insert(pos as int, new_pair));
        }
        self.entries = entries;
    }
}

/// With sorted keys, `lookup` gives the entry whose key it is, and nothing when
/// no entry has the key.
pub proof fn lemma_lookup_sorted(s: ContextMapView, key: Seq<char>)
    requires
        keys_sorted(s),
    ensures
        forall|i: int| 0 <= i < s.len() && #[trigger] s[i].0 == key ==> lookup(s, key) == Some(s[i].1),
        (forall|i: int| 0 <= i < s.len() ==> #[trigger] s[i].0 != key) ==> lookup(s, key) is None,
{
    assert forall|i: int| 0 <= i < s.len() && #[trigger] s[i].0 == key implies lookup(s, key) == Some(s[i].1) by {
        lemma_lookup_at(s, i);
    }
    lemma_lookup_some(s, key);
}

/// Replacing the entry at `pos` by one with the same key keeps the keys sorted and
/// changes what that key finds, nothing else.
proof fn lemma_replace_at(
    s: ContextMapView,
    pos: int,
    pair: (Seq<char>, AdditionalContextEntryView),
)
    requires
        keys_sorted(s),
        0 <= pos < s.len(),
        s[pos].0 == pair.0,
    ensures
        keys_sorted(s.update(pos, pair)),
        forall|k: Seq<char>|
            #![trigger lookup(s.update(pos, pair), k)]
            lookup(s.update(pos, pair), k) == if k == pair.0 {
                Some(pair.1)
            } else {
                lookup(s, k)
            },
{
    let t = s.update(pos, pair);
    assert forall|i: int, j: int| 0 <= i < j < t.len() implies key_lt(#[trigger] t[i].0, #[trigger] t[j].0) by {
        assert(key_lt(s[i].0, s[j].0));
    }
    assert forall|k: Seq<char>| #![trigger lookup(t, k)] lookup(t, k) == if k == pair.0 {
        Some(pair.1)
    } else {
        lookup(s, k)
    } by {
        lemma_lookup_sorted(t, k);
        lemma_lookup_sorted(s, k);
        if k == pair.0 {
            assert(t[pos].0 == k);
        } else {
            if exists|i: int| 0 <= i < s.len() && #[trigger] s[i].0 == k {
                let i = choose|i: int| 0 <= i < s.len() && #[trigger] s[i].0 == k;
                assert(t[i] == s[i]);
            } else {
                assert forall|i: int| 0 <= i < t.len() implies #[trigger] t[i].0 != k by {
                    if i != pos {
                        assert(t[i] == s[i]);
                    }
                }
            }
        }
    }
}

/// Inserting at `pos` an entry whose key lies strictly between the keys before
/// and after `pos` keeps the keys sorted and adds that key, nothing else.
proof fn lemma_insert_at(
    s: ContextMapView,
    pos: int,
    pair: (Seq<char>, AdditionalContextEntryView),
)
    requires
        keys_sorted(s),
        0 <= pos <= s.len(),
        forall|j: int| 0 <= j < pos ==> key_lt(#[trigger] s[j].0, pair.0),
        forall|j: int| pos <= j < s.len() ==> !key_lt(#[trigger] s[j].0, pair.0),
        pos < s.len() ==> s[pos].0 != pair.0,
    ensures
        keys_sorted(s.insert(pos, pair)),
        forall|k: Seq<char>|
            #![trigger lookup(s.insert(pos, pair), k)]
            lookup(s.insert(pos, pair), k) == if k == pair.0 {
                Some(pair.1)
            } else {
                lookup(s, k)
            },
{
    let t = s.insert(pos, pair);
    assert forall|j: int| pos <= j < s.len() implies key_lt(pair.0, #[trigger] s[j].0) by {
        if s[j].0 == pair.0 {
            if j > pos {
                assert(key_lt(s[pos].0, s[j].0));
            }
        } else {
            lemma_key_lt_total(s[j].0, pair.0);
        }
    }
    assert forall|i: int, j: int| 0 <= i < j < t.len() implies key_lt(#[trigger] t[i].0, #[trigger] t[j].0) by {
        if j < pos {
            assert(key_lt(s[i].0, s[j].0));
        } else if j == pos {
            assert(t[i] == s[i]);
        } else if i < pos {
            assert(t[j] == s[j - 1]);
            assert(key_lt(s[i].0, pair.0));
            assert(key_lt(pair.0, s[j - 1].0));
            lemma_key_lt_transitive(s[i].0, pair.0, s[j - 1].0);
        } else if i == pos {
            assert(t[j] == s[j - 1]);
        } else {
            assert(key_lt(s[i - 1].0, s[j - 1].0));
        }
    }
    assert forall|k: Seq<char>| #![trigger lookup(t, k)] lookup(t, k) == if k == pair.0 {
        Some(pair.1)
    } else {
        lookup(s, k)
    } by {
        lemma_lookup_sorted(t, k);
        lemma_lookup_sorted(s, k);
        if k == pair.0 {
            assert(t[pos].0 == k);
        } else {
            if exists|i: int| 0 <= i < s.len() && #[trigger] s[i].0 == k {
                let i = choose|i: int| 0 <= i < s.len() && #[trigger] s[i].0 == k;
                if i < pos {
                    assert(t[i] == s[i]);
                } else {
                    assert(t[i + 1] == s[i]);
                }
            } else {
                assert forall|i: int| 0 <= i < t.len() implies #[trigger] t[i].0 != k by {
                    if i < pos {
                        assert(t[i] == s[i]);
                    } else if i > pos {
                        assert(t[i] == s[i - 1]);
                    }
                }
            }
        }
    }
}

} // verus!
