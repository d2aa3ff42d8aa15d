use thread_context_pins::api::ApiThreadContextPin;
use thread_context_pins::error::INVALID_REQUEST_ERROR_CODE;
use thread_context_pins::pagination::paginate_context_pins;

fn pins(n: usize) -> Vec<ApiThreadContextPin> {
    (0..n)
        .map(|i| ApiThreadContextPin {
            thread_id: "t".to_string(),
            pin_id: format!("pin-{i}"),
            text: "a".to_string(),
            created_at: 0,
            updated_at: 0,
        })
        .collect()
}

fn ids(page: &[ApiThreadContextPin]) -> Vec<&str> {
    page.iter().map(|p| p.pin_id.as_str()).collect()
}

#[test]
fn cursors_are_decimal_numbers_with_an_optional_plus() {
    let (page, _) = paginate_context_pins(pins(3), Some("+1"), Some(1)).expect("plus sign");
    assert_eq!(ids(&page), vec!["pin-1"]);
    let (page, _) = paginate_context_pins(pins(3), Some("002"), None).expect("leading zeros");
    assert_eq!(ids(&page), vec!["pin-2"]);
    for bad in ["", "+", "-1", " 1", "1 ", "1_0", "0x1", "99999999999999999999999999"] {
        let err = paginate_context_pins(pins(3), Some(bad), None).unwrap_err();
        assert_eq!(err.code, INVALID_REQUEST_ERROR_CODE);
        assert_eq!(err.message, format!("invalid cursor: {bad}"));
    }
}

#[test]
fn cursor_beyond_the_pins_names_both_numbers() {
    let err = paginate_context_pins(pins(2), Some("5"), None).unwrap_err();
    assert_eq!(err.message, "cursor 5 exceeds total context pins 2");
    let (page, next) = paginate_context_pins(pins(2), Some("2"), None).expect("cursor at the end");
    assert!(page.is_empty());
    assert_eq!(next, None);
}

#[test]
fn cursor_is_checked_before_the_limit() {
    let err = paginate_context_pins(pins(2), Some("x"), Some(0)).unwrap_err();
    assert_eq!(err.message, "invalid cursor: x");
    let err = paginate_context_pins(pins(2), None, Some(0)).unwrap_err();
    assert_eq!(err.message, "limit must be greater than 0");
}

#[test]
fn pages_never_exceed_the_per_thread_maximum() {
    let (page, next) = paginate_context_pins(pins(40), None, Some(1000)).expect("large limit");
    assert_eq!(page.len(), 16);
    assert_eq!(next.as_deref(), Some("16"));
    let (page, next) = paginate_context_pins(pins(40), None, None).expect("default limit");
    assert_eq!(page.len(), 16);
    assert_eq!(next.as_deref(), Some("16"));
}

#[test]
fn following_cursors_walks_every_pin_once() {
    let all = pins(23);
    let mut seen = Vec::new();
    let mut cursor: Option<String> = None;
    loop {
        let (page, next) =
            paginate_context_pins(all.clone(), cursor.as_deref(), Some(5)).expect("valid page");
        seen.extend(page.into_iter().map(|p| p.pin_id));
        match next {
            Some(c) => cursor = Some(c),
            None => break,
        }
    }
    let expected: Vec<String> = (0..23).map(|i| format!("pin-{i}")).collect();
    assert_eq!(seen, expected);
}

#[test]
fn a_thread_with_few_pins_lists_them_in_one_page() {
    let (page, next) = paginate_context_pins(pins(1), None, None).expect("one pin");
    assert_eq!(ids(&page), vec!["pin-0"]);
    assert_eq!(next, None);
    let (page, next) = paginate_context_pins(Vec::new(), None, None).expect("no pins");
    assert!(page.is_empty());
    assert_eq!(next, None);
}
