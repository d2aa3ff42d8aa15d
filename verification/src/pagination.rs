use vstd::prelude::*;
use vstd::string::*;

use crate::api::{ApiThreadContextPin, ApiThreadContextPinView};
use crate::error::{invalid_request, invalid_request_view, JSONRPCErrorError};
use crate::limits::MAX_CONTEXT_PINS_PER_THREAD;
use crate::text::{concat_str, decimal, lemma_parse_decimal, parse_usize, str_parse_usize, usize_to_string};

verus! {

/// How many pins a page holds when the client names no limit.
pub const DEFAULT_CONTEXT_PIN_LIST_LIMIT: usize = MAX_CONTEXT_PINS_PER_THREAD;

/// The views of a sequence of protocol pins.
pub open spec fn api_views(pins: Seq<ApiThreadContextPin>) -> Seq<ApiThreadContextPinView> {
    pins.map_values(|p: ApiThreadContextPin| p@)
}

/// The view of an optional text.
pub open spec fn opt_str_view(s: Option<&str>) -> Option<Seq<char>> {
    match s {
        Some(t) => Some(t@),
        None => None,
    }
}

/// Where a page begins: at the pin that the cursor counts, or at the first pin
/// without a cursor; `None` when the cursor is not a number.
pub open spec fn page_start(cursor: Option<Seq<char>>) -> Option<usize> {
    match cursor {
        Some(c) => parse_usize(c),
        None => Some(0),
    }
}

/// How many pins a page may hold: the limit the client asked for, at most the
/// per-thread maximum.
pub open spec fn effective_limit(limit: Option<u32>) -> int {
    match limit {
        Some(l) => if l < MAX_CONTEXT_PINS_PER_THREAD {
            l as int
        } else {
            MAX_CONTEXT_PINS_PER_THREAD as int
        },
        None => DEFAULT_CONTEXT_PIN_LIST_LIMIT as int,
    }
}

/// Where a page that begins at `start` ends, among `total` pins.
pub open spec fn page_end(start: int, limit: Option<u32>, total: int) -> int {
    if start + effective_limit(limit) < total {
        start + effective_limit(limit)
    } else {
        total
    }
}

/// Whether a page may be cut: the cursor is a number within the pins and the
/// limit is not zero.
pub open spec fn page_request_is_valid(
    cursor: Option<Seq<char>>,
    limit: Option<u32>,
    total: int,
) -> bool {
    &&& page_start(cursor) matches Some(start)
    &&& start <= total
    &&& limit != Some(0u32)
}

/// The error message of a page request that is not valid.
pub open spec fn page_error_message(cursor: Option<Seq<char>>, limit: Option<u32>, total: int) -> Seq<
    char,
> {
    match page_start(cursor) {
        None => "invalid cursor: "@ + cursor->0,
        Some(start) => if start > total {
            "cursor "@ + decimal(start as nat) + " exceeds total context pins "@ + decimal(
                total as nat,
            )
        } else {
            "limit must be greater than 0"@
        },
    }
}

/// Cuts a page out of `pins`: from the pin that `cursor` counts (or the first),
/// at most `limit` pins (or the default), never more than the per-thread maximum.
/// The next cursor counts the first pin after the page, when there is one.
pub fn paginate_context_pins(
    pins: Vec<ApiThreadContextPin>,
    cursor: Option<&str>,
    limit: Option<u32>,
) -> (r: Result<(Vec<ApiThreadContextPin>, Option<String>), JSONRPCErrorError>)
    ensures
        r is Ok <==> page_request_is_valid(opt_str_view(cursor), limit, pins@.len() as int),
        r matches Err(e) ==> e@ == invalid_request_view(
            page_error_message(opt_str_view(cursor), limit, pins@.len() as int),
        ),
        r matches Ok((page, next)) ==> {
            let start = page_start(opt_str_view(cursor))->0 as int;
            let end = page_end(start, limit, pins@.len() as int);
            &&& api_views(page@) == api_views(pins@).subrange(start, end)
            &&& next is Some <==> end < pins@.len()
            &&& next matches Some(c) ==> c@ == decimal(end as nat)
        },
{
    let total = pins.len();
    let start: usize = match cursor {
        Some(c) => match str_parse_usize(c) {
            Some(v) => v,
            None => {
                return Err(invalid_request(concat_str("invalid cursor: ", c)));
            },
        },
        None => 0,
    };
    if start > total {
        let start_text = usize_to_string(start);
        let total_text = usize_to_string(total);
        let message = concat_str("cursor ", start_text.as_str()).concat(
            " exceeds total context pins ",
        ).concat(total_text.as_str());
        return Err(invalid_request(message));
    }
    let requested_limit: Option<usize> = match limit {
        Some(value) => Some(value as usize),
        None => None,
    };
    if requested_limit == Some(0usize) {
        return Err(invalid_request("limit must be greater than 0".to_owned()));
    }
    let requested = match requested_limit {
        Some(value) => value,
        None => DEFAULT_CONTEXT_PIN_LIST_LIMIT,
    };
    let effective_limit = if requested < MAX_CONTEXT_PINS_PER_THREAD {
        requested
    } else {
        MAX_CONTEXT_PINS_PER_THREAD
    };
    let reach = start.saturating_add(effective_limit);
    let end = if reach < total {
        reach
    } else {
        total
    };
    let mut page: Vec<ApiThreadContextPin> = Vec::new();
    for i in start..end
        invariant
            start <= end <= total,
            total == pins@.len(),
            page@.len() == i - start,
            forall|j: int| 0 <= j < page@.len() ==> (#[trigger] page@[j])@ == pins@[start + j]@,
    {
        page.push(pins[i].clone());
    }
    assert(api_views(page@) =~= api_views(pins@).subrange(start as int, end as int));
    let next_cursor = if end < total {
        Some(usize_to_string(end))
    } else {
        None
    };
    Ok((page, next_cursor))
}

/// A page that leaves pins behind hands out a cursor that reads back as the
/// position right after the page, which lies beyond where the page began: following
/// cursors walks the pins in order, each page taking up where the last one ended.
pub proof fn lemma_next_cursor_resumes(start: usize, limit: Option<u32>, total: usize)
    requires
        start <= total,
        limit != Some(0u32),
        page_end(start as int, limit, total as int) < total,
    ensures
        ({
            let end = page_end(start as int, limit, total as int);
            &&& start < end <= total
            &&& page_start(Some(decimal(end as nat))) == Some(end as usize)
            &&& page_request_is_valid(Some(decimal(end as nat)), limit, total as int)
        }),
{
    let end = page_end(start as int, limit, total as int);
    lemma_parse_decimal(end as usize);
}

/// Every page holds at least one pin when it begins before the end, and never more
/// than the per-thread maximum.
pub proof fn lemma_page_size(start: usize, limit: Option<u32>, total: usize)
    requires
        start <= total,
        limit != Some(0u32),
    ensures
        ({
            let end = page_end(start as int, limit, total as int);
            &&& start <= end <= total
            &&& end - start <= MAX_CONTEXT_PINS_PER_THREAD
            &&& start < total ==> start < end
        }),
{
}

/// Without cursor or limit, a thread's pins, of which there are at most the
/// per-thread maximum, come in one page, with no next cursor.
pub proof fn lemma_default_page_holds_all(total: usize)
    requires
        total <= MAX_CONTEXT_PINS_PER_THREAD,
    ensures
        page_request_is_valid(None, None, total as int),
        page_start(None) == Some(0usize),
        page_end(0, None, total as int) == total,
{
}

/// The pages that a client collects by asking for the page at `start` and then
/// following each next cursor until none is handed out.
pub open spec fn follow_cursors(
    pins: Seq<ApiThreadContextPinView>,
    start: int,
    limit: Option<u32>,
) -> Seq<Seq<ApiThreadContextPinView>>
    decreases pins.len() - start,
{
    let total = pins.len() as int;
    let end = page_end(start, limit, total);
    let page = pins.subrange(start, end);
    if start < end && end < total {
        seq![page] + follow_cursors(pins, end, limit)
    } else {
        seq![page]
    }
}

/// The pins of a sequence of pages, page after page.
pub open spec fn concat_pages(pages: Seq<Seq<ApiThreadContextPinView>>) -> Seq<
    ApiThreadContextPinView,
>
    decreases pages.len(),
{
    if pages.len() == 0 {
        Seq::empty()
    } else {
        pages[0] + concat_pages(pages.drop_first())
    }
}

/// Following cursors from `start` collects the pins from `start` on, in order, each
/// once, in pages of the effective limit, none empty unless no pin is left.
proof fn lemma_follow_cursors_from(pins: Seq<ApiThreadContextPinView>, start: int, limit: Option<u32>)
    requires
        0 <= start <= pins.len(),
        limit != Some(0u32),
    ensures
        ({
            let pages = follow_cursors(pins, start, limit);
            let l = effective_limit(limit);
            let left = pins.len() - start;
            &&& concat_pages(pages) == pins.subrange(start, pins.len() as int)
            &&& pages.len() == if left == 0 {
                1
            } else {
                (left + l - 1) / l
            }
            &&& forall|i: int|
                0 <= i < pages.len() ==> #[trigger] pages[i].len() <= l && (left > 0
                    ==> pages[i].len() > 0)
        }),
    decreases pins.len() - start,
{
    let total = pins.len() as int;
    let l = effective_limit(limit);
    let end = page_end(start, limit, total);
    let page = pins.subrange(start, end);
    let pages = follow_cursors(pins, start, limit);
    assert(1 <= l <= 16);
    if start < end && end < total {
        lemma_follow_cursors_from(pins, end, limit);
        let rest = follow_cursors(pins, end, limit);
        assert(pages == seq![page] + rest);
        assert(pages.drop_first() =~= rest);
        assert(pages[0] == page);
        assert(page + pins.subrange(end, total) =~= pins.subrange(start, total));
        assert(concat_pages(pages) == pages[0] + concat_pages(pages.drop_first()));
        let left = total - start;
        assert(end == start + l);
        assert((left - l + l - 1) / l + 1 == (left + l - 1) / l) by (nonlinear_arith)
            requires
                l > 0,
                left > l,
        ;
        assert forall|i: int| 0 <= i < pages.len() implies #[trigger] pages[i].len() <= l && (
        left > 0 ==> pages[i].len() > 0) by {
            if i > 0 {
                assert(pages[i] == rest[i - 1]);
            }
        }
    } else {
        assert(pages == seq![page]);
        assert(pages.drop_first() =~= Seq::<Seq<ApiThreadContextPinView>>::empty());
        assert(page + Seq::<ApiThreadContextPinView>::empty() =~= page);
        assert(concat_pages(pages.drop_first()) == Seq::<ApiThreadContextPinView>::empty());
        assert(concat_pages(pages) == pages[0] + concat_pages(pages.drop_first()));
        let left = total - start;
        assert(end == total);
        assert(page =~= pins.subrange(start, total));
        assert(pages[0] == page);
        if left > 0 {
            assert((left + l - 1) / l == 1) by (nonlinear_arith)
                requires
                    l > 0,
                    0 < left <= l,
            ;
        }
    }
}

/// Following next cursors from the first page collects every pin once, in order:
/// the pages put together are the pins; there are as many pages as the effective
/// limit needs (one when there is no pin), each at most that limit, none empty
/// unless there is no pin; and each cursor handed out reads back as the position
/// where the next page begins.
pub proof fn lemma_following_cursors_yields_every_pin_once(
    pins: Seq<ApiThreadContextPinView>,
    limit: Option<u32>,
)
    requires
        pins.len() <= usize::MAX,
        limit != Some(0u32),
    ensures
        ({
            let pages = follow_cursors(pins, 0, limit);
            let l = effective_limit(limit);
            let n = pins.len() as int;
            &&& concat_pages(pages) == pins
            &&& pages.len() == if n == 0 {
                1
            } else {
                (n + l - 1) / l
            }
            &&& forall|i: int|
                0 <= i < pages.len() ==> #[trigger] pages[i].len() <= l && (n > 0
                    ==> pages[i].len() > 0)
        }),
        forall|start: usize|
            start <= pins.len() && #[trigger] page_end(start as int, limit, pins.len() as int)
                < pins.len() ==> page_start(
                Some(decimal(page_end(start as int, limit, pins.len() as int) as nat)),
            ) == Some(page_end(start as int, limit, pins.len() as int) as usize),
{
    lemma_follow_cursors_from(pins, 0, limit);
    assert(pins.subrange(0, pins.len() as int) =~= pins);
    assert forall|start: usize|
        start <= pins.len() && #[trigger] page_end(start as int, limit, pins.len() as int)
            < pins.len() implies page_start(
        Some(decimal(page_end(start as int, limit, pins.len() as int) as nat)),
    ) == Some(page_end(start as int, limit, pins.len() as int) as usize) by {
        lemma_next_cursor_resumes(start, limit, pins.len() as usize);
    }
}

/// The rules of a page, in plain numbers: it begins at the number that the cursor
/// spells (at 0 without a cursor), holds as many pins as the limit asks but never
/// more than 16 (16 without a limit), and stops at the last pin; it is refused for a
/// cursor that spells no number, for a cursor beyond the pins, and for a zero limit,
/// in that order, each with its own message.
pub proof fn lemma_page_rules(cursor: Option<Seq<char>>, limit: Option<u32>, total: int)
    ensures
        ({
            let start: Option<usize> = match cursor {
                Some(c) => parse_usize(c),
                None => Some(0usize),
            };
            let l: int = match limit {
                Some(x) => if x < 16 {
                    x as int
                } else {
                    16
                },
                None => 16,
            };
            &&& page_start(cursor) == start
            &&& page_request_is_valid(cursor, limit, total) <==> start is Some && start->0 <= total
                && limit != Some(0u32)
            &&& forall|s: int| #[trigger]
                page_end(s, limit, total) == if s + l < total {
                    s + l
                } else {
                    total
                }
            &&& page_error_message(cursor, limit, total) == match start {
                None => "invalid cursor: "@ + cursor->0,
                Some(s) => if s > total {
                    "cursor "@ + decimal(s as nat) + " exceeds total context pins "@ + decimal(
                        total as nat,
                    )
                } else {
                    "limit must be greater than 0"@
                },
            }
        }),
{
}

} // verus!
