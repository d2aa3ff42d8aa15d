use thread_context_pins::api::api_thread_context_pin_from_state;
use thread_context_pins::model::pins_from_rows;
use thread_context_pins::model::PinRowError;
use thread_context_pins::model::ThreadContextPin;
use thread_context_pins::model::ThreadContextPinRow;
use thread_context_pins::store::ThreadContextPinStore;
use thread_context_pins::text::concat_str;
use thread_context_pins::text::str_byte_len;
use thread_context_pins::text::str_is_blank;
use thread_context_pins::thread_id::new_random_id;
use thread_context_pins::thread_id::ThreadId;
use thread_context_pins::time::UtcDateTime;
use thread_context_pins::time::MAX_TIMESTAMP_MILLIS;
use thread_context_pins::time::MIN_TIMESTAMP_MILLIS;

const THREAD: &str = "00000000-0000-0000-0000-000000000123";

fn row(thread_id: &str, created: i64, updated: i64) -> ThreadContextPinRow {
    ThreadContextPinRow {
        thread_id: thread_id.to_string(),
        pin_id: "pin-1".to_string(),
        text: "Remember this".to_string(),
        created_at_ms: created,
        updated_at_ms: updated,
    }
}

#[test]
fn thread_id_round_trips_through_its_text() {
    let text = "67e55044-10b1-426f-9247-bb680e5fe0c8";
    let id = ThreadId::from_string(text).expect("valid thread id");
    assert_eq!(id.to_string(), text);
    let upper = ThreadId::from_string("67E55044-10B1-426F-9247-BB680E5FE0C8").expect("upper case");
    assert_eq!(upper, id);
    let simple = ThreadId::from_string("67e5504410b1426f9247bb680e5fe0c8").expect("simple form");
    assert_eq!(simple.to_string(), text);
    assert!(ThreadId::from_string("not-a-uuid").is_err());
    assert!(ThreadId::from_string("").is_err());
}

#[test]
fn random_ids_are_version_four_uuids() {
    let a = new_random_id();
    let b = new_random_id();
    assert_ne!(a, b);
    assert_eq!(a.len(), 36);
    assert_eq!(&a[14..15], "4");
    for (i, c) in a.chars().enumerate() {
        if [8, 13, 18, 23].contains(&i) {
            assert_eq!(c, '-');
        } else {
            assert!(c.is_ascii_hexdigit() && !c.is_ascii_uppercase());
        }
    }
    assert_eq!(ThreadId::from_string(&a).expect("parses").to_string(), a);
}

#[test]
fn timestamps_follow_chronos_range() {
    assert!(UtcDateTime::from_timestamp_millis(MIN_TIMESTAMP_MILLIS).is_some());
    assert!(UtcDateTime::from_timestamp_millis(MAX_TIMESTAMP_MILLIS).is_some());
    assert!(UtcDateTime::from_timestamp_millis(MIN_TIMESTAMP_MILLIS - 1).is_none());
    assert!(UtcDateTime::from_timestamp_millis(MAX_TIMESTAMP_MILLIS + 1).is_none());
    assert!(UtcDateTime::from_timestamp_millis(i64::MIN).is_none());
    assert!(UtcDateTime::from_timestamp_millis(i64::MAX).is_none());
}

#[test]
fn timestamp_rounds_towards_the_past() {
    let seconds = |ms: i64| UtcDateTime::from_timestamp_millis(ms).unwrap().timestamp();
    assert_eq!(seconds(1_500), 1);
    assert_eq!(seconds(1_999), 1);
    assert_eq!(seconds(2_000), 2);
    assert_eq!(seconds(-1), -1);
    assert_eq!(seconds(-1_000), -1);
    assert_eq!(seconds(-1_001), -2);
    let dt = UtcDateTime::from_timestamp_millis(1_725_029_869_123).unwrap();
    assert_eq!(dt.timestamp_millis(), 1_725_029_869_123);
    assert_eq!(dt.timestamp(), 1_725_029_869);
}

#[test]
fn now_is_after_the_epoch() {
    let now = UtcDateTime::now();
    assert!(now.timestamp_millis() > 1_600_000_000_000);
}

#[test]
fn rows_make_pins_or_say_which_column_is_wrong() {
    let pin = ThreadContextPin::try_from(row(THREAD, 1_000, 2_000)).expect("valid row");
    assert_eq!(pin.thread_id.to_string(), THREAD);
    assert_eq!(pin.pin_id, "pin-1");
    assert_eq!(pin.text, "Remember this");
    assert_eq!(pin.created_at.timestamp_millis(), 1_000);
    assert_eq!(pin.updated_at.timestamp_millis(), 2_000);

    assert!(matches!(
        ThreadContextPin::try_from(row("thread", 1_000, 2_000)),
        Err(PinRowError::InvalidThreadId(_))
    ));
    assert!(matches!(
        ThreadContextPin::try_from(row(THREAD, i64::MAX, i64::MIN)),
        Err(PinRowError::InvalidTimestamp { millis }) if millis == i64::MAX
    ));
    assert!(matches!(
        ThreadContextPin::try_from(row(THREAD, 0, i64::MIN)),
        Err(PinRowError::InvalidTimestamp { millis }) if millis == i64::MIN
    ));
}

#[test]
fn pins_from_rows_keeps_order_and_stops_at_first_bad_row() {
    let pins = pins_from_rows(vec![row(THREAD, 1, 1), row(THREAD, 2, 2)]).expect("valid rows");
    assert_eq!(
        pins.iter()
            .map(|p| p.created_at.timestamp_millis())
            .collect::<Vec<_>>(),
        vec![1, 2]
    );
    let err = pins_from_rows(vec![
        row(THREAD, 1, 1),
        row(THREAD, 1, i64::MAX),
        row("bad", 1, 1),
    ])
    .unwrap_err();
    assert!(matches!(err, PinRowError::InvalidTimestamp { millis } if millis == i64::MAX));
    assert!(pins_from_rows(Vec::new()).expect("no rows").is_empty());
}

#[test]
fn api_pins_carry_the_thread_id_text_and_seconds() {
    let pin = ThreadContextPin::try_from(row(THREAD, 1_725_029_869_999, -1)).expect("valid row");
    let api = api_thread_context_pin_from_state(pin);
    assert_eq!(api.thread_id, THREAD);
    assert_eq!(api.pin_id, "pin-1");
    assert_eq!(api.text, "Remember this");
    assert_eq!(api.created_at, 1_725_029_869);
    assert_eq!(api.updated_at, -1);
}

#[test]
fn new_pin_rows_have_fresh_ids_and_one_time() {
    let thread_id = ThreadId::from_string(THREAD).expect("valid thread id");
    let row = ThreadContextPinStore::<()>::new_pin_row(thread_id, "Remember this");
    assert_eq!(row.thread_id, THREAD);
    assert_eq!(row.text, "Remember this");
    assert_eq!(row.created_at_ms, row.updated_at_ms);
    assert_eq!(row.pin_id.len(), 36);
    let pin = ThreadContextPin::try_from(row).expect("a new row makes a pin");
    assert_eq!(pin.thread_id, thread_id);
}

#[test]
fn store_keeps_its_pool() {
    let store = ThreadContextPinStore::new(std::sync::Arc::new(7u32));
    assert_eq!(**store.pool(), 7);
    let copy = store.clone();
    assert!(std::sync::Arc::ptr_eq(store.pool(), copy.pool()));
}

#[test]
fn text_helpers_follow_std() {
    assert!(str_is_blank(""));
    assert!(str_is_blank(" \t\n\r\u{b}\u{c}\u{a0}\u{2003}\u{3000}"));
    assert!(!str_is_blank(" x "));
    assert_eq!(str_byte_len("héllo"), 6);
    assert_eq!(str_byte_len("\u{10000}"), 4);
    assert_eq!(concat_str("ab", "cd"), "abcd");
}

#[test]
fn blank_means_every_character_is_unicode_white_space() {
    let white_space: Vec<u32> = (0x9..=0xd)
        .chain([0x20, 0x85, 0xa0, 0x1680])
        .chain(0x2000..=0x200a)
        .chain([0x2028, 0x2029, 0x202f, 0x205f, 0x3000])
        .collect();
    for c in (0..=0x10ffffu32).filter_map(char::from_u32) {
        let text = c.to_string();
        assert_eq!(
            str_is_blank(&text),
            white_space.contains(&(c as u32)),
            "{:#x}",
            c as u32
        );
    }
}

#[test]
fn thread_ids_parse_in_every_uuid_form() {
    let id = ThreadId::from_string("67e55044-10b1-426f-9247-bb680e5fe0c8").expect("hyphenated");
    for text in [
        "67e5504410b1426f9247bb680e5fe0c8",
        "67E5504410B1426F9247BB680E5FE0C8",
        "{67e55044-10b1-426f-9247-bb680e5fe0c8}",
        "urn:uuid:67e55044-10b1-426f-9247-bb680e5fe0c8",
        "URN:Uuid:67E55044-10B1-426F-9247-BB680E5FE0C8",
    ] {
        assert_eq!(ThreadId::from_string(text).expect(text), id);
    }
    for text in [
        "67e55044-10b1-426f-9247-bb680e5fe0c",
        "(67e55044-10b1-426f-9247-bb680e5fe0c8)",
        "urx:uuid:67e55044-10b1-426f-9247-bb680e5fe0c8",
        "67e55044x10b1-426f-9247-bb680e5fe0c8",
        "67e5504410b1426f9247bb680e5fe0cg",
        "67e55044-10b1-426f-9247-bb680e5fe0c\u{e9}",
    ] {
        assert!(ThreadId::from_string(text).is_err(), "{text}");
    }
}

#[test]
fn update_time_is_now() {
    let before = UtcDateTime::now().timestamp_millis();
    let at = ThreadContextPinStore::<()>::update_time_millis();
    let after = UtcDateTime::now().timestamp_millis();
    assert!(before <= at && at <= after);
}
