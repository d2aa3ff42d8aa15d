use thread_context_pins::additional_context::AdditionalContextEntry;
use thread_context_pins::additional_context::AdditionalContextKind;
use thread_context_pins::additional_context::AdditionalContextMap;
use thread_context_pins::context_store::AdditionalContextFragment;
use thread_context_pins::context_store::AdditionalContextStore;
use thread_context_pins::key_order::key_less;
use thread_context_pins::model::ThreadContextPin;
use thread_context_pins::pinned_context::pinned_context_additional_context;
use thread_context_pins::pinned_context::pinned_context_from_listing;
use thread_context_pins::thread_id::ThreadId;
use thread_context_pins::time::UtcDateTime;

fn entry(value: &str, kind: AdditionalContextKind) -> AdditionalContextEntry {
    AdditionalContextEntry {
        value: value.to_string(),
        kind,
    }
}

fn context_values() -> AdditionalContextMap {
    let mut values = AdditionalContextMap::new();
    values.insert(
        "codex_context_pin_pin-1".to_string(),
        entry("Remember this", AdditionalContextKind::Untrusted),
    );
    values
}

fn keys(map: &AdditionalContextMap) -> Vec<String> {
    (0..map.len()).map(|i| map.entry_at(i).0.clone()).collect()
}

fn fragment_key(fragment: &AdditionalContextFragment) -> &str {
    match fragment {
        AdditionalContextFragment::User { key, .. } => key,
        AdditionalContextFragment::Developer { key, .. } => key,
    }
}

#[test]
fn clear_allows_unchanged_context_to_be_reemitted() {
    let mut store = AdditionalContextStore::default();

    assert_eq!(store.merge(context_values()).len(), 1);
    assert_eq!(store.merge(context_values()).len(), 0);

    store.clear();

    assert_eq!(store.merge(context_values()).len(), 1);
}

#[test]
fn merge_emits_only_changed_entries_in_key_order() {
    let mut store = AdditionalContextStore::default();
    let mut first = AdditionalContextMap::new();
    first.insert("b".to_string(), entry("two", AdditionalContextKind::Untrusted));
    first.insert("a".to_string(), entry("one", AdditionalContextKind::Application));
    let emitted = store.merge(first);
    assert_eq!(
        emitted.iter().map(fragment_key).collect::<Vec<_>>(),
        vec!["a", "b"]
    );
    assert!(matches!(
        &emitted[0],
        AdditionalContextFragment::Developer { key, value } if key == "a" && value == "one"
    ));
    assert!(matches!(
        &emitted[1],
        AdditionalContextFragment::User { key, value } if key == "b" && value == "two"
    ));

    // Same value under "a", a new kind under "b", a new key "c".
    let mut second = AdditionalContextMap::new();
    second.insert("a".to_string(), entry("one", AdditionalContextKind::Application));
    second.insert("b".to_string(), entry("two", AdditionalContextKind::Application));
    second.insert("c".to_string(), entry("three", AdditionalContextKind::Untrusted));
    let emitted = store.merge(second);
    assert_eq!(
        emitted.iter().map(fragment_key).collect::<Vec<_>>(),
        vec!["b", "c"]
    );
}

#[test]
fn merge_of_same_values_twice_emits_nothing_the_second_time() {
    let mut store = AdditionalContextStore::default();
    let build = || {
        let mut m = AdditionalContextMap::new();
        m.insert("x".to_string(), entry("1", AdditionalContextKind::Untrusted));
        m.insert("y".to_string(), entry("2", AdditionalContextKind::Application));
        m
    };
    assert_eq!(store.merge(build()).len(), 2);
    assert_eq!(store.merge(build()).len(), 0);
}

#[test]
fn context_map_keeps_keys_sorted_and_replaces_values() {
    let mut m = AdditionalContextMap::new();
    for key in ["delta", "alpha", "charlie", "bravo", "alpha"] {
        m.insert(key.to_string(), entry(key, AdditionalContextKind::Untrusted));
    }
    m.insert("alpha".to_string(), entry("replaced", AdditionalContextKind::Application));
    assert_eq!(keys(&m), vec!["alpha", "bravo", "charlie", "delta"]);
    let alpha = m.get("alpha").expect("alpha is stored");
    assert_eq!(alpha.value, "replaced");
    assert_eq!(alpha.kind, AdditionalContextKind::Application);
    assert!(m.get("echo").is_none());
}

#[test]
fn key_order_is_that_of_str() {
    let samples = ["", "a", "ab", "b", "Z", "é", "z", "\u{10000}", "a\u{0}"];
    for a in samples {
        for b in samples {
            assert_eq!(key_less(a, b), a < b, "{a:?} < {b:?}");
        }
    }
}

#[test]
fn pinned_context_is_untrusted_under_pin_keys() {
    let now = UtcDateTime::from_timestamp_millis(0).expect("epoch is valid");
    let thread_id =
        ThreadId::from_string("00000000-0000-0000-0000-000000000001").expect("valid thread id");
    let pin = |pin_id: &str, text: &str| ThreadContextPin {
        thread_id,
        pin_id: pin_id.to_string(),
        text: text.to_string(),
        created_at: now,
        updated_at: now,
    };
    let pins = vec![pin("b", "second"), pin("a", "first"), pin("b", "latest")];
    let map = pinned_context_additional_context(&pins);
    assert_eq!(
        keys(&map),
        vec!["codex_context_pin_a", "codex_context_pin_b"]
    );
    let b = map.get("codex_context_pin_b").expect("pin b is present");
    assert_eq!(b.value, "latest");
    assert_eq!(b.kind, AdditionalContextKind::Untrusted);

    let mut store = AdditionalContextStore::default();
    let emitted = store.merge(map);
    assert!(emitted
        .iter()
        .all(|f| matches!(f, AdditionalContextFragment::User { .. })));
    assert!(pinned_context_additional_context(&[]).len() == 0);
}

#[test]
fn pinned_context_from_listing_covers_every_outcome() {
    assert_eq!(pinned_context_from_listing(None).expect("no state db").len(), 0);
    let err = pinned_context_from_listing(Some(Err("locked".to_string())))
        .err()
        .expect("listing failed");
    assert_eq!(err.code, thread_context_pins::error::INTERNAL_ERROR_CODE);
    assert_eq!(err.message, "failed to list thread context pins: locked");
    let now = UtcDateTime::from_timestamp_millis(0).expect("epoch is valid");
    let pin = ThreadContextPin {
        thread_id: ThreadId::from_string("00000000-0000-0000-0000-000000000001")
            .expect("valid thread id"),
        pin_id: "p".to_string(),
        text: "t".to_string(),
        created_at: now,
        updated_at: now,
    };
    let map = pinned_context_from_listing(Some(Ok(vec![pin]))).expect("listed");
    assert_eq!(keys(&map), vec!["codex_context_pin_p"]);
}
