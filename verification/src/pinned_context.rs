use vstd::prelude::*;

use crate::additional_context::{
    keys_sorted, lookup, AdditionalContextEntry, AdditionalContextEntryView,
    AdditionalContextKind, AdditionalContextMap,
};
use crate::model::ThreadContextPin;
use crate::context_store::changed_fragments;
use crate::additional_context::{lemma_lookup_at, ContextMapView};
use crate::error::{internal_error, internal_error_view, JSONRPCErrorError};
use crate::text::concat_str;

verus! {

/// The key under which a pin's text is handed to the model as additional context.
pub open spec fn pin_context_key(pin_id: Seq<char>) -> Seq<char> {
    "codex_context_pin_"@ + pin_id
}

/// The entry that `pins` give under `key`: the text of the last pin whose key it is,
/// as untrusted context.
pub open spec fn pinned_lookup(pins: Seq<ThreadContextPin>, key: Seq<char>) -> Option<
    AdditionalContextEntryView,
>
    decreases pins.len(),
{
    if pins.len() == 0 {
        None
    } else if pin_context_key(pins.last().pin_id@) == key {
        Some(
            AdditionalContextEntryView {
                value: pins.last().text@,
                kind: AdditionalContextKind::Untrusted,
            },
        )
    } else {
        pinned_lookup(pins.drop_last(), key)
    }
}

/// The additional context that the pins of a thread give: each pin's text, as
/// untrusted context, under the key made of the pin id.
pub fn pinned_context_additional_context(pins: &[ThreadContextPin]) -> (m: AdditionalContextMap)
    ensures
        keys_sorted(m@),
        forall|key: Seq<char>| #[trigger] lookup(m@, key) == pinned_lookup(pins@, key),
{
    let mut m = AdditionalContextMap::new();
    let n = pins.len();
    for i in 0..n
        invariant
            n == pins@.len(),
            keys_sorted(m@),
            forall|key: Seq<char>|
                #[trigger] lookup(m@, key) == pinned_lookup(pins@.take(i as int), key),
    {
        let key = concat_str("codex_context_pin_", pins[i].pin_id.as_str());
        let entry = AdditionalContextEntry {
            value: pins[i].text.clone(),
            kind: AdditionalContextKind::Untrusted,
        };
        let ghost before = m@;
        m.insert(key, entry);
        proof {
            assert(pins@.take(i + 1).drop_last() =~= pins@.take(i as int));
            assert forall|k: Seq<char>| #[trigger]
                lookup(m@, k) == pinned_lookup(pins@.take(i + 1), k) by {
                assert(pins@.take(i + 1).last() == pins@[i as int]);
            }
        }
    }
    assert(pins@.take(n as int) =~= pins@);
    m
}

/// The additional context of a thread from the outcome of listing its pins: none
/// when the server keeps no state database (`None`), an internal error when the
/// listing failed, and the context that the pins give otherwise.
pub fn pinned_context_from_listing(listed: Option<Result<Vec<ThreadContextPin>, String>>) -> (r:
    Result<AdditionalContextMap, JSONRPCErrorError>)
    ensures
        match listed {
            None => r matches Ok(m) && m@ == Seq::<(Seq<char>, AdditionalContextEntryView)>::empty(),
            Some(Err(err)) => r matches Err(e) && e@ == internal_error_view(
                "failed to list thread context pins: "@ + err@,
            ),
            Some(Ok(pins)) => r matches Ok(m) && keys_sorted(m@) && forall|key: Seq<char>|
                #[trigger] lookup(m@, key) == pinned_lookup(pins@, key),
        },
{
    match listed {
        None => Ok(AdditionalContextMap::new()),
        Some(Err(err)) => Err(
            internal_error(concat_str("failed to list thread context pins: ", err.as_str())),
        ),
        Some(Ok(pins)) => Ok(pinned_context_additional_context(pins.as_slice())),
    }
}

/// An entry that pins give is untrusted context holding the text of a pin, under the
/// key of that pin's id.
pub proof fn lemma_pinned_lookup_is_pin(pins: Seq<ThreadContextPin>, key: Seq<char>)
    requires
        pinned_lookup(pins, key) is Some,
    ensures
        pinned_lookup(pins, key)->0.kind == AdditionalContextKind::Untrusted,
        exists|j: int|
            0 <= j < pins.len() && key == pin_context_key(#[trigger] pins[j].pin_id@)
                && pinned_lookup(pins, key)->0.value == pins[j].text@,
    decreases pins.len(),
{
    if pin_context_key(pins.last().pin_id@) != key {
        lemma_pinned_lookup_is_pin(pins.drop_last(), key);
        let j = choose|j: int|
            0 <= j < pins.len() - 1 && key == pin_context_key(#[trigger] pins.drop_last()[j].pin_id@)
                && pinned_lookup(pins.drop_last(), key)->0.value == pins.drop_last()[j].text@;
        assert(pins[j] == pins.drop_last()[j]);
    } else {
        assert(key == pin_context_key(pins[pins.len() - 1].pin_id@));
    }
}

/// Pinned context reaches the model as user input: whatever a merge of the context
/// that pins give hands on is a user fragment holding the text of a pin, under the
/// key `codex_context_pin_` followed by that pin's id.
pub proof fn lemma_pinned_context_reaches_model_as_user_input(
    pins: Seq<ThreadContextPin>,
    m: ContextMapView,
    old: ContextMapView,
)
    requires
        keys_sorted(m),
        forall|key: Seq<char>| #[trigger] lookup(m, key) == pinned_lookup(pins, key),
    ensures
        forall|i: int|
            0 <= i < changed_fragments(old, m).len() ==> {
                let f = #[trigger] changed_fragments(old, m)[i];
                &&& f is User
                &&& exists|j: int|
                    0 <= j < pins.len() && f->User_key == pin_context_key(#[trigger] pins[j].pin_id@)
                        && f->User_value == pins[j].text@
            },
{
    lemma_fragments_of_pinned_prefix(pins, m, old, m.len() as int);
    assert(m.take(m.len() as int) =~= m);
}

proof fn lemma_fragments_of_pinned_prefix(
    pins: Seq<ThreadContextPin>,
    m: ContextMapView,
    old: ContextMapView,
    n: int,
)
    requires
        keys_sorted(m),
        forall|key: Seq<char>| #[trigger] lookup(m, key) == pinned_lookup(pins, key),
        0 <= n <= m.len(),
    ensures
        forall|i: int|
            0 <= i < changed_fragments(old, m.take(n)).len() ==> {
                let f = #[trigger] changed_fragments(old, m.take(n))[i];
                &&& f is User
                &&& exists|j: int|
                    0 <= j < pins.len() && f->User_key == pin_context_key(#[trigger] pins[j].pin_id@)
                        && f->User_value == pins[j].text@
            },
    decreases n,
{
    if n > 0 {
        lemma_fragments_of_pinned_prefix(pins, m, old, n - 1);
        let p = m.take(n);
        assert(p.drop_last() =~= m.take(n - 1));
        assert(p.last() == m[n - 1]);
        lemma_lookup_at(m, n - 1);
        assert(lookup(m, m[n - 1].0) == pinned_lookup(pins, m[n - 1].0));
        lemma_pinned_lookup_is_pin(pins, m[n - 1].0);
    }
}

/// A key made of the pin prefix names one pin id only.
proof fn lemma_pin_key_injective(a: Seq<char>, b: Seq<char>)
    requires
        "codex_context_pin_"@ + a == "codex_context_pin_"@ + b,
    ensures
        a == b,
{
    let p = "codex_context_pin_"@;
    assert(a =~= (p + a).subrange(p.len() as int, (p + a).len() as int));
    assert(b =~= (p + b).subrange(p.len() as int, (p + b).len() as int));
}

proof fn lemma_pinned_lookup_last_wins(pins: Seq<ThreadContextPin>, j: int)
    requires
        0 <= j < pins.len(),
        forall|k: int| j < k < pins.len() ==> #[trigger] pins[k].pin_id@ != pins[j].pin_id@,
    ensures
        pinned_lookup(pins, "codex_context_pin_"@ + pins[j].pin_id@) == Some(
            AdditionalContextEntryView {
                value: pins[j].text@,
                kind: AdditionalContextKind::Untrusted,
            },
        ),
    decreases pins.len(),
{
    let key = "codex_context_pin_"@ + pins[j].pin_id@;
    if j < pins.len() - 1 {
        if pin_context_key(pins.last().pin_id@) == key {
            lemma_pin_key_injective(pins.last().pin_id@, pins[j].pin_id@);
            assert(pins[pins.len() - 1].pin_id@ != pins[j].pin_id@);
        }
        let rest = pins.drop_last();
        assert forall|k: int| j < k < rest.len() implies #[trigger] rest[k].pin_id@
            != rest[j].pin_id@ by {
            assert(rest[k] == pins[k]);
        }
        lemma_pinned_lookup_last_wins(rest, j);
        assert(rest[j] == pins[j]);
    }
}

/// What the pins of a thread hand to the model: under `codex_context_pin_` followed
/// by a pin's id, the text of the last pin with that id, as untrusted context (so
/// the pin's own text when no later pin shares its id); and nothing under any other
/// key.
pub proof fn lemma_pinned_context_entries(pins: Seq<ThreadContextPin>, m: ContextMapView)
    requires
        forall|key: Seq<char>| #[trigger] lookup(m, key) == pinned_lookup(pins, key),
    ensures
        forall|j: int|
            0 <= j < pins.len() && (forall|k: int|
                j < k < pins.len() ==> #[trigger] pins[k].pin_id@ != pins[j].pin_id@) ==> lookup(
                m,
                "codex_context_pin_"@ + (#[trigger] pins[j]).pin_id@,
            ) == Some(
                AdditionalContextEntryView {
                    value: pins[j].text@,
                    kind: AdditionalContextKind::Untrusted,
                },
            ),
        forall|key: Seq<char>|
            #[trigger] lookup(m, key) is Some ==> exists|j: int|
                0 <= j < pins.len() && key == "codex_context_pin_"@ + (#[trigger] pins[j]).pin_id@
                    && lookup(m, key) == Some(
                    AdditionalContextEntryView {
                        value: pins[j].text@,
                        kind: AdditionalContextKind::Untrusted,
                    },
                ),
{
    assert forall|j: int|
        0 <= j < pins.len() && (forall|k: int|
            j < k < pins.len() ==> #[trigger] pins[k].pin_id@ != pins[j].pin_id@) implies lookup(
        m,
        "codex_context_pin_"@ + (#[trigger] pins[j]).pin_id@,
    ) == Some(
        AdditionalContextEntryView { value: pins[j].text@, kind: AdditionalContextKind::Untrusted },
    ) by {
        lemma_pinned_lookup_last_wins(pins, j);
    }
    assert forall|key: Seq<char>| #[trigger] lookup(m, key) is Some implies exists|j: int|
        0 <= j < pins.len() && key == "codex_context_pin_"@ + (#[trigger] pins[j]).pin_id@
            && lookup(m, key) == Some(
            AdditionalContextEntryView {
                value: pins[j].text@,
                kind: AdditionalContextKind::Untrusted,
            },
        ) by {
        lemma_pinned_lookup_is_pin(pins, key);
    }
}

} // verus!
