use vstd::prelude::*;
use vstd::utf8::encode_utf8;

use crate::error::{invalid_request, invalid_request_view, JSONRPCErrorError};
use crate::model::ThreadContextPin;

use crate::text::{char_is_whitespace, is_blank, str_byte_len, str_eq, str_is_blank, utf8_len};

verus! {

/// How many pins a thread may hold.
pub const MAX_CONTEXT_PINS_PER_THREAD: usize = 16;

/// How many bytes the text of one pin may have.
pub const MAX_CONTEXT_PIN_TEXT_BYTES: usize = 16384;

/// How many bytes the texts of all pins of a thread may have together.
pub const MAX_CONTEXT_PIN_TOTAL_TEXT_BYTES: usize = 65536;

/// Whether a pin id is acceptable: not blank.
pub open spec fn pin_id_is_valid(pin_id: Seq<char>) -> bool {
    !is_blank(pin_id)
}

/// Whether a pin text is acceptable: not blank and not longer than the per-pin limit.
pub open spec fn pin_text_is_valid(text: Seq<char>) -> bool {
    !is_blank(text) && utf8_len(text) <= MAX_CONTEXT_PIN_TEXT_BYTES
}

/// Total number of bytes of a sequence of texts.
pub open spec fn total_bytes(texts: Seq<Seq<char>>) -> int
    decreases texts.len(),
{
    if texts.len() == 0 {
        0
    } else {
        total_bytes(texts.drop_last()) + utf8_len(texts.last())
    }
}

/// The views of a sequence of string slices.
pub open spec fn str_views(texts: Seq<&str>) -> Seq<Seq<char>> {
    texts.map_values(|t: &str| t@)
}

/// The bytes that an optional new text adds.
pub open spec fn new_text_bytes(new_text: Option<&str>) -> int {
    match new_text {
        Some(t) => utf8_len(t@) as int,
        None => 0,
    }
}

/// The bytes of existing texts and an optional new text together.
pub open spec fn texts_total(texts: Seq<&str>, new_text: Option<&str>) -> int {
    total_bytes(str_views(texts)) + new_text_bytes(new_text)
}

/// Whether existing texts and an optional new text stay within the per-thread total.
pub open spec fn total_bytes_within_limit(texts: Seq<&str>, new_text: Option<&str>) -> bool {
    texts_total(texts, new_text) <= MAX_CONTEXT_PIN_TOTAL_TEXT_BYTES
}

/// Total number of bytes of the texts of `pins`.
pub open spec fn pins_bytes(pins: Seq<ThreadContextPin>) -> int
    decreases pins.len(),
{
    if pins.len() == 0 {
        0
    } else {
        pins_bytes(pins.drop_last()) + utf8_len(pins.last().text@)
    }
}

/// Total number of bytes of the texts of those `pins` whose id is not `pin_id`.
pub open spec fn pins_bytes_excluding(pins: Seq<ThreadContextPin>, pin_id: Seq<char>) -> int
    decreases pins.len(),
{
    if pins.len() == 0 {
        0
    } else if pins.last().pin_id@ == pin_id {
        pins_bytes_excluding(pins.drop_last(), pin_id)
    } else {
        pins_bytes_excluding(pins.drop_last(), pin_id) + utf8_len(pins.last().text@)
    }
}

/// Whether a thread holding `existing` may receive one more pin with text `new_text`.
pub open spec fn create_limits_hold(existing: Seq<ThreadContextPin>, new_text: Seq<char>) -> bool {
    existing.len() < MAX_CONTEXT_PINS_PER_THREAD && pins_bytes(existing) + utf8_len(new_text)
        <= MAX_CONTEXT_PIN_TOTAL_TEXT_BYTES
}

/// Whether the pin `pin_id` of a thread holding `existing` may take the text `text`.
pub open spec fn update_limits_hold(
    existing: Seq<ThreadContextPin>,
    pin_id: Seq<char>,
    text: Seq<char>,
) -> bool {
    pins_bytes_excluding(existing, pin_id) + utf8_len(text) <= MAX_CONTEXT_PIN_TOTAL_TEXT_BYTES
}

/// The error message for a blank pin id.
pub open spec fn pin_id_error_message() -> Seq<char> {
    "pinId must not be empty"@
}

/// The error message for a pin text that is not acceptable.
pub open spec fn pin_text_error_message(text: Seq<char>) -> Seq<char> {
    if is_blank(text) {
        "context pin text must not be empty"@
    } else {
        "context pin text must be at most 16384 bytes"@
    }
}

/// The error message for pin texts that exceed the per-thread total.
pub open spec fn total_bytes_error_message() -> Seq<char> {
    "thread context pins must total at most 65536 bytes"@
}

/// The error message for a new pin that the thread cannot take.
pub open spec fn create_limits_error_message(existing: Seq<ThreadContextPin>) -> Seq<char> {
    if existing.len() >= MAX_CONTEXT_PINS_PER_THREAD {
        "threads can have at most 16 context pins"@
    } else {
        total_bytes_error_message()
    }
}

/// A total of prefixes never exceeds the total of the whole.
pub proof fn lemma_total_bytes_prefix(texts: Seq<Seq<char>>, i: int)
    requires
        0 <= i <= texts.len(),
    ensures
        0 <= total_bytes(texts.take(i)) <= total_bytes(texts),
    decreases texts.len(),
{
    if texts.len() > 0 {
        if i == texts.len() {
            assert(texts.take(i) =~= texts);
            lemma_total_bytes_prefix(texts.drop_last(), i - 1);
            assert(texts.drop_last().take(i - 1) =~= texts.drop_last());
        } else {
            lemma_total_bytes_prefix(texts.drop_last(), i);
            assert(texts.drop_last().take(i) =~= texts.take(i));
        }
    }
}

/// Excluding a pin never adds bytes.
pub proof fn lemma_pins_bytes_excluding_bound(pins: Seq<ThreadContextPin>, pin_id: Seq<char>)
    ensures
        0 <= pins_bytes_excluding(pins, pin_id) <= pins_bytes(pins),
    decreases pins.len(),
{
    if pins.len() > 0 {
        lemma_pins_bytes_excluding_bound(pins.drop_last(), pin_id);
    }
}

/// Refuses a blank pin id.
pub fn validate_context_pin_id(pin_id: &str) -> (r: Result<(), JSONRPCErrorError>)
    ensures
        r is Ok <==> pin_id_is_valid(pin_id@),
        r matches Err(e) ==> e@ == invalid_request_view(pin_id_error_message()),
{
    if str_is_blank(pin_id) {
        return Err(invalid_request("pinId must not be empty".to_owned()));
    }
    Ok(())
}

/// Refuses a blank pin text, or one longer than the per-pin limit.
pub fn validate_context_pin_text(text: &str) -> (r: Result<(), JSONRPCErrorError>)
    ensures
        r is Ok <==> pin_text_is_valid(text@),
        r matches Err(e) ==> e@ == invalid_request_view(pin_text_error_message(text@)),
{
    if str_is_blank(text) {
        return Err(invalid_request("context pin text must not be empty".to_owned()));
    }
    let bytes = str_byte_len(text);
    if bytes > MAX_CONTEXT_PIN_TEXT_BYTES {
        return Err(invalid_request("context pin text must be at most 16384 bytes".to_owned()));
    }
    Ok(())
}

/// Refuses texts that together, with `new_text` if any, exceed the per-thread total.
pub fn validate_total_context_pin_bytes(existing_texts: &[&str], new_text: Option<&str>) -> (r:
    Result<(), JSONRPCErrorError>)
    requires
        total_bytes(str_views(existing_texts@)) <= usize::MAX,
    ensures
        r is Ok <==> total_bytes_within_limit(existing_texts@, new_text),
        r matches Err(e) ==> e@ == invalid_request_view(total_bytes_error_message()),
{
    let ghost views = str_views(existing_texts@);
    let mut existing_bytes: usize = 0;
    let n = existing_texts.len();
    for i in 0..n
        invariant
            n == existing_texts@.len(),
            views == str_views(existing_texts@),
            total_bytes(views) <= usize::MAX,
            existing_bytes == total_bytes(views.take(i as int)),
    {
        proof {
            lemma_total_bytes_prefix(views, i + 1);
            assert(views.take(i + 1).drop_last() =~= views.take(i as int));
            assert(views.take(i + 1).last() == existing_texts@[i as int]@);
        }
        existing_bytes = existing_bytes + str_byte_len(existing_texts[i]);
    }
    assert(views.take(n as int) =~= views);
    let new_bytes: usize = match new_text {
        Some(t) => str_byte_len(t),
        None => 0,
    };
    let total_bytes = existing_bytes.saturating_add(new_bytes);
    if total_bytes > MAX_CONTEXT_PIN_TOTAL_TEXT_BYTES {
        return Err(invalid_request("thread context pins must total at most 65536 bytes".to_owned()));
    }
    Ok(())
}

/// Refuses a new pin with text `new_text` on a thread that holds `existing`: when
/// the thread holds the most pins it may, or the texts would exceed the total.
pub fn validate_create_context_pin_limits(existing: &[ThreadContextPin], new_text: &str) -> (r:
    Result<(), JSONRPCErrorError>)
    requires
        pins_bytes(existing@) <= usize::MAX,
    ensures
        r is Ok <==> create_limits_hold(existing@, new_text@),
        r matches Err(e) ==> e@ == invalid_request_view(create_limits_error_message(existing@)),
{
    if existing.len() >= MAX_CONTEXT_PINS_PER_THREAD {
        return Err(invalid_request("threads can have at most 16 context pins".to_owned()));
    }
    let mut texts: Vec<&str> = Vec::new();
    let n = existing.len();
    for i in 0..n
        invariant
            n == existing@.len(),
            texts@.len() == i,
            total_bytes(str_views(texts@)) == pins_bytes(existing@.take(i as int)),
            forall|j: int| 0 <= j < i ==> (#[trigger] texts@[j])@ == existing@[j].text@,
    {
        let ghost before = texts@;
        texts.push(existing[i].text.as_str());
        proof {
            assert(str_views(texts@).drop_last() =~= str_views(before));
            assert(existing@.take(i + 1).drop_last() =~= existing@.take(i as int));
        }
    }
    assert(existing@.take(n as int) =~= existing@);
    validate_total_context_pin_bytes(texts.as_slice(), Some(new_text))
}

/// Refuses giving the pin `updated_pin_id` the text `updated_text` when the texts of
/// the thread's other pins and the new text together exceed the total.
pub fn validate_update_context_pin_limits(
    existing: &[ThreadContextPin],
    updated_pin_id: &str,
    updated_text: &str,
) -> (r: Result<(), JSONRPCErrorError>)
    requires
        pins_bytes(existing@) <= usize::MAX,
    ensures
        r is Ok <==> update_limits_hold(existing@, updated_pin_id@, updated_text@),
        r matches Err(e) ==> e@ == invalid_request_view(total_bytes_error_message()),
{
    let mut texts: Vec<&str> = Vec::new();
    let n = existing.len();
    proof {
        lemma_pins_bytes_excluding_bound(existing@, updated_pin_id@);
    }
    for i in 0..n
        invariant
            n == existing@.len(),
            pins_bytes(existing@) <= usize::MAX,
            total_bytes(str_views(texts@)) == pins_bytes_excluding(
                existing@.take(i as int),
                updated_pin_id@,
            ),
    {
        let ghost before = texts@;
        proof {
            assert(existing@.take(i + 1).drop_last() =~= existing@.take(i as int));
        }
        if !str_eq(existing[i].pin_id.as_str(), updated_pin_id) {
            texts.push(existing[i].text.as_str());
            proof {
                assert(str_views(texts@).drop_last() =~= str_views(before));
            }
        }
    }
    assert(existing@.take(n as int) =~= existing@);
    validate_total_context_pin_bytes(texts.as_slice(), Some(updated_text))
}


/// The texts of a prefix of the pins never have more bytes than those of all pins.
pub proof fn lemma_pins_bytes_prefix(pins: Seq<ThreadContextPin>, i: int)
    requires
        0 <= i <= pins.len(),
    ensures
        0 <= pins_bytes(pins.take(i)) <= pins_bytes(pins),
    decreases pins.len(),
{
    if pins.len() > 0 {
        if i == pins.len() {
            assert(pins.take(i) =~= pins);
            lemma_pins_bytes_prefix(pins.drop_last(), i - 1);
            assert(pins.drop_last().take(i - 1) =~= pins.drop_last());
        } else {
            lemma_pins_bytes_prefix(pins.drop_last(), i);
            assert(pins.drop_last().take(i) =~= pins.take(i));
        }
    }
}

/// Whether the texts of `pins` together have at most `usize::MAX` bytes, so that the
/// limits can be checked on them.
pub fn pins_bytes_fit(pins: &[ThreadContextPin]) -> (r: bool)
    ensures
        r == (pins_bytes(pins@) <= usize::MAX),
{
    let n = pins.len();
    let mut total: usize = 0;
    for i in 0..n
        invariant
            n == pins@.len(),
            total == pins_bytes(pins@.take(i as int)),
    {
        proof {
            assert(pins@.take(i + 1).drop_last() =~= pins@.take(i as int));
        }
        match total.checked_add(str_byte_len(pins[i].text.as_str())) {
            Some(t) => {
                total = t;
            },
            None => {
                proof {
                    lemma_pins_bytes_prefix(pins@, i + 1);
                }
                return false;
            },
        }
    }
    assert(pins@.take(n as int) =~= pins@);
    true
}

/// Updating a pin that the thread does not hold counts every text of the thread,
/// as adding a pin would.
pub proof fn lemma_update_of_unknown_id_counts_all(pins: Seq<ThreadContextPin>, pin_id: Seq<char>)
    requires
        forall|i: int| 0 <= i < pins.len() ==> #[trigger] pins[i].pin_id@ != pin_id,
    ensures
        pins_bytes_excluding(pins, pin_id) == pins_bytes(pins),
        forall|text: Seq<char>|
            update_limits_hold(pins, pin_id, text) <==> pins_bytes(pins) + utf8_len(text)
                <= MAX_CONTEXT_PIN_TOTAL_TEXT_BYTES,
    decreases pins.len(),
{
    if pins.len() > 0 {
        let t = pins.drop_last();
        assert forall|i: int| 0 <= i < t.len() implies #[trigger] t[i].pin_id@ != pin_id by {
            assert(t[i] == pins[i]);
        }
        lemma_update_of_unknown_id_counts_all(t, pin_id);
        assert(pins[pins.len() - 1].pin_id@ != pin_id);
    }
}

/// The total check looks at the total alone: texts of fewer or as many bytes in
/// all pass whenever texts of more pass, whatever their order or how the bytes are
/// split among them, and a missing new text counts as an empty one.
pub proof fn lemma_total_check_depends_on_total(
    a: Seq<&str>,
    new_a: Option<&str>,
    b: Seq<&str>,
    new_b: Option<&str>,
)
    ensures
        total_bytes_within_limit(a, new_a) && texts_total(b, new_b) <= texts_total(a, new_a)
            ==> total_bytes_within_limit(b, new_b),
        texts_total(b, new_b) == texts_total(a, new_a) ==> (total_bytes_within_limit(a, new_a)
            <==> total_bytes_within_limit(b, new_b)),
        new_text_bytes(None) == 0,
        forall|t: &str| t@.len() == 0 ==> new_text_bytes(Some(t)) == 0,
{
    assert forall|t: &str| t@.len() == 0 implies new_text_bytes(Some(t)) == 0 by {
        assert(encode_utf8(t@) =~= Seq::<u8>::empty());
    }
}

/// What the rules on pins say, in terms of the texts themselves: an id or a text is
/// acceptable when some character of it is not white space, a text then when it has
/// at most 16384 bytes; a thread may take a new pin when it holds fewer than 16 and
/// all texts, the new one counted once, have at most 65536 bytes; an update counts
/// the other pins' texts and the new text, and not the number of pins.
pub proof fn lemma_pin_rules(
    existing: Seq<ThreadContextPin>,
    pin_id: Seq<char>,
    text: Seq<char>,
)
    ensures
        pin_id_is_valid(pin_id) <==> exists|i: int|
            0 <= i < pin_id.len() && !char_is_whitespace(#[trigger] pin_id[i]),
        pin_text_is_valid(text) <==> (exists|i: int|
            0 <= i < text.len() && !char_is_whitespace(#[trigger] text[i])) && utf8_len(text)
            <= 16384,
        pin_text_error_message(text) == if exists|i: int|
            0 <= i < text.len() && !char_is_whitespace(#[trigger] text[i]) {
            "context pin text must be at most 16384 bytes"@
        } else {
            "context pin text must not be empty"@
        },
        create_limits_hold(existing, text) <==> existing.len() < 16 && pins_bytes(existing)
            + utf8_len(text) <= 65536,
        update_limits_hold(existing, pin_id, text) <==> pins_bytes_excluding(existing, pin_id)
            + utf8_len(text) <= 65536,
        create_limits_error_message(existing) == if existing.len() >= 16 {
            "threads can have at most 16 context pins"@
        } else {
            "thread context pins must total at most 65536 bytes"@
        },
        total_bytes_error_message() == "thread context pins must total at most 65536 bytes"@,
{
}

/// The total of some texts, with an optional new text, is the sum of their bytes,
/// and it is within the limit when it is at most 65536 bytes.
pub proof fn lemma_total_rules(texts: Seq<&str>, new_text: Option<&str>)
    ensures
        total_bytes(Seq::<Seq<char>>::empty()) == 0,
        texts.len() > 0 ==> total_bytes(str_views(texts)) == total_bytes(
            str_views(texts.drop_last()),
        ) + utf8_len(texts.last()@),
        total_bytes_within_limit(texts, new_text) <==> total_bytes(str_views(texts)) + match new_text {
            Some(t) => utf8_len(t@) as int,
            None => 0,
        } <= 65536,
{
    if texts.len() > 0 {
        assert(str_views(texts).drop_last() =~= str_views(texts.drop_last()));
    }
}

/// The bytes of the pins' texts are the sum of the bytes of each text, and leaving
/// out the pins of one id takes away exactly their bytes.
pub proof fn lemma_pins_bytes_sum(pins: Seq<ThreadContextPin>, pin_id: Seq<char>)
    ensures
        pins.len() > 0 ==> pins_bytes(pins) == pins_bytes(pins.drop_last()) + utf8_len(
            pins.last().text@,
        ),
        pins.len() == 0 ==> pins_bytes(pins) == 0,
        pins_bytes_excluding(pins, pin_id) + pins_bytes(
            pins.filter(|p: ThreadContextPin| p.pin_id@ == pin_id),
        ) == pins_bytes(pins),
    decreases pins.len(),
{
    let same = |p: ThreadContextPin| p.pin_id@ == pin_id;
    if pins.len() > 0 {
        let rest = pins.drop_last();
        let last = pins.last();
        lemma_pins_bytes_sum(rest, pin_id);
        assert(rest.push(last) =~= pins);
        rest.lemma_filter_push(last, same);
        let kept = rest.filter(same);
        if same(last) {
            assert(kept.push(last).drop_last() =~= kept);
            assert(pins_bytes(kept.push(last)) == pins_bytes(kept) + utf8_len(last.text@));
        }
        assert(pins.filter(same) == pins.filter(|p: ThreadContextPin| p.pin_id@ == pin_id));
    } else {
        reveal(Seq::filter);
        assert(pins.filter(same) =~= Seq::<ThreadContextPin>::empty());
    }
}

} // verus!
