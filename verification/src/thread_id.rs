use vstd::arithmetic::div_mod::{
    lemma_div_denominator, lemma_div_pos_is_pos, lemma_fundamental_div_mod, lemma_mod_bound,
};
use vstd::arithmetic::power::{lemma_pow_positive, pow};
use vstd::prelude::*;

use crate::text::digit_char;

verus! {

/// Declares `uuid::Error`, the error of a failed UUID parse.
#[verifier::external_type_specification]
#[verifier::external_body]
pub struct ExUuidError(uuid::Error);

/// The lower-case hexadecimal digit of `d`.
pub open spec fn hex_digit_lower(d: int) -> char {
    if d < 10 {
        digit_char(d as nat)
    } else if d == 10 {
        'a'
    } else if d == 11 {
        'b'
    } else if d == 12 {
        'c'
    } else if d == 13 {
        'd'
    } else if d == 14 {
        'e'
    } else {
        'f'
    }
}

/// The `k`-th of the 32 hexadecimal digits of `v`, most significant first.
pub open spec fn uuid_nibble(v: u128, k: int) -> int {
    (v as int / pow(16, (31 - k) as nat)) % 16
}

/// Which hexadecimal digit stands at position `i` of the hyphenated form.
pub open spec fn hyphenated_digit_index(i: int) -> int {
    if i < 8 {
        i
    } else if i < 13 {
        i - 1
    } else if i < 18 {
        i - 2
    } else if i < 23 {
        i - 3
    } else {
        i - 4
    }
}

/// The hyphenated lower-case form of a UUID, such as
/// `67e55044-10b1-426f-9247-bb680e5fe0c8`: its 32 hexadecimal digits, most
/// significant first, with hyphens after the 8th, 12th, 16th and 20th.
pub open spec fn uuid_hyphenated(v: u128) -> Seq<char> {
    Seq::new(
        36,
        |i: int|
            if i == 8 || i == 13 || i == 18 || i == 23 {
                '-'
            } else {
                hex_digit_lower(uuid_nibble(v, hyphenated_digit_index(i)))
            },
    )
}

/// The value of a hexadecimal digit, either case; -1 for any other character.
pub open spec fn hex_value(c: char) -> int {
    if '0' <= c <= '9' {
        c as int - '0' as int
    } else if 'a' <= c <= 'f' {
        c as int - 'a' as int + 10
    } else if 'A' <= c <= 'F' {
        c as int - 'A' as int + 10
    } else {
        -1
    }
}

/// Where the `k`-th hexadecimal digit stands in the hyphenated form.
pub open spec fn hyphenated_digit_position(k: int) -> int {
    if k < 8 {
        k
    } else if k < 12 {
        k + 1
    } else if k < 16 {
        k + 2
    } else if k < 20 {
        k + 3
    } else {
        k + 4
    }
}

/// Whether `s` is the hyphenated form of a UUID, in either case.
pub open spec fn is_hyphenated_uuid(s: Seq<char>) -> bool {
    &&& s.len() == 36
    &&& s[8] == '-' && s[13] == '-' && s[18] == '-' && s[23] == '-'
    &&& forall|k: int| 0 <= k < 32 ==> hex_value(#[trigger] s[hyphenated_digit_position(k)]) >= 0
}

/// The value of the first `n` hexadecimal digits of a hyphenated UUID.
pub open spec fn hyphenated_prefix_value(s: Seq<char>, n: nat) -> int
    decreases n,
{
    if n == 0 {
        0
    } else {
        hyphenated_prefix_value(s, (n - 1) as nat) * 16 + hex_value(
            s[hyphenated_digit_position(n - 1)],
        )
    }
}

/// The value that the hyphenated form `s` of a UUID denotes.
pub open spec fn hyphenated_value(s: Seq<char>) -> int {
    hyphenated_prefix_value(s, 32)
}

/// Whether every character of `s` is a hexadecimal digit.
pub open spec fn all_hex(s: Seq<char>) -> bool {
    forall|i: int| 0 <= i < s.len() ==> hex_value(#[trigger] s[i]) >= 0
}

/// The value of a run of hexadecimal digits, most significant first.
pub open spec fn hex_digits_value(s: Seq<char>) -> int
    decreases s.len(),
{
    if s.len() == 0 {
        0
    } else {
        hex_digits_value(s.drop_last()) * 16 + hex_value(s.last())
    }
}

/// Whether `s` is `urn:uuid:`, letters in either case.
pub open spec fn is_urn_prefix(s: Seq<char>) -> bool {
    let lower = seq!['u', 'r', 'n', ':', 'u', 'u', 'i', 'd', ':'];
    let upper = seq!['U', 'R', 'N', ':', 'U', 'U', 'I', 'D', ':'];
    s.len() == 9 && forall|i: int| 0 <= i < 9 ==> #[trigger] s[i] == lower[i] || s[i] == upper[i]
}

/// What `uuid::Uuid::parse_str` makes of a text, read as a 128-bit value: the 32
/// hexadecimal digits of the simple form, or those of the hyphenated form, bare, in
/// braces or after `urn:uuid:`, digits in either case; `None` for any other text.
pub open spec fn uuid_parse(s: Seq<char>) -> Option<u128> {
    if s.len() == 32 && all_hex(s) {
        Some(hex_digits_value(s) as u128)
    } else if is_hyphenated_uuid(s) {
        Some(hyphenated_value(s) as u128)
    } else if s.len() == 38 && s[0] == '{' && s[37] == '}' && is_hyphenated_uuid(
        s.subrange(1, 37),
    ) {
        Some(hyphenated_value(s.subrange(1, 37)) as u128)
    } else if s.len() == 45 && is_urn_prefix(s.take(9)) && is_hyphenated_uuid(s.skip(9)) {
        Some(hyphenated_value(s.skip(9)) as u128)
    } else {
        None
    }
}

/// Calls `uuid::Uuid::parse_str` and reads the parsed UUID as a `u128`. uuid's
/// parser accepts exactly the forms that `uuid_parse` states (its input is read as
/// bytes, and every accepted text is ASCII), with the value of the digits read
/// big-endian.
#[verifier::external_body]
fn uuid_parse_str(s: &str) -> (r: Result<u128, uuid::Error>)
    ensures
        r is Ok <==> uuid_parse(s@) is Some,
        r matches Ok(v) ==> uuid_parse(s@) == Some(v),
{
    uuid::Uuid::parse_str(s).map(|u| u.as_u128())
}

/// Name for the text of the error that `uuid::Uuid::parse_str` returns for a text
/// that it refuses.
pub uninterp spec fn uuid_parse_error_text(s: Seq<char>) -> Seq<char>;

/// Calls `uuid::Uuid::parse_str` on a text that it refuses and `to_string` on the
/// error it returns. The text of uuid's message is left to the name; it depends on
/// the input alone.
#[verifier::external_body]
pub(crate) fn uuid_parse_error_message(s: &str) -> (m: String)
    requires
        uuid_parse(s@) is None,
    ensures
        m@ == uuid_parse_error_text(s@),
{
    match uuid::Uuid::parse_str(s) {
        Err(e) => e.to_string(),
        Ok(_) => String::new(),
    }
}

/// Calls `uuid::Uuid::to_string` on the UUID of value `v`: uuid's `Display`
/// writes the hyphenated lower-case form.
#[verifier::external_body]
fn uuid_to_string(v: u128) -> (s: String)
    ensures
        s@ == uuid_hyphenated(v),
{
    uuid::Uuid::from_u128(v).to_string()
}

/// Calls `uuid::Uuid::new_v4` and reads it as a `u128`. The value is random; the
/// contract states only the version (4) and variant (RFC 4122) bits that uuid sets
/// on every outcome.
#[verifier::external_body]
fn uuid_new_v4() -> (v: u128)
    ensures
        (v >> 76u128) & 0xfu128 == 4,
        (v >> 62u128) & 0x3u128 == 2,
{
    uuid::Uuid::new_v4().as_u128()
}

/// Whether `v` has the version (4) and variant (RFC 4122) bits of a random UUID.
pub open spec fn is_v4_uuid(v: u128) -> bool {
    (v >> 76u128) & 0xfu128 == 4 && (v >> 62u128) & 0x3u128 == 2
}

/// A new random identifier in the hyphenated lower-case form of a version 4 UUID.
pub fn new_random_id() -> (s: String)
    ensures
        exists|v: u128| s@ == uuid_hyphenated(v) && is_v4_uuid(v),
{
    let v = uuid_new_v4();
    uuid_to_string(v)
}

/// The identifier of a conversation thread: a UUID.
#[derive(Clone, Copy, PartialEq, Eq, Debug)]
pub struct ThreadId {
    uuid: u128,
}

impl View for ThreadId {
    type V = u128;

    /// The UUID as a 128-bit value.
    closed spec fn view(&self) -> u128 {
        self.uuid
    }
}

impl ThreadId {
    /// Parses a thread id from the textual form of a UUID.
    pub fn from_string(s: &str) -> (r: Result<ThreadId, uuid::Error>)
        ensures
            r is Ok <==> uuid_parse(s@) is Some,
            r matches Ok(id) ==> uuid_parse(s@) == Some(id@),
            is_hyphenated_uuid(s@) ==> (r matches Ok(id) && id@ == hyphenated_value(s@) as u128),
    {
        match uuid_parse_str(s) {
            Ok(uuid) => Ok(ThreadId { uuid }),
            Err(e) => Err(e),
        }
    }

    /// The hyphenated lower-case form of the thread id.
    pub fn to_string(&self) -> (s: String)
        ensures
            s@ == uuid_hyphenated(self@),
    {
        uuid_to_string(self.uuid)
    }
}

/// The hexadecimal digit of `d` reads back as `d`.
proof fn lemma_hex_digit_value(d: int)
    requires
        0 <= d < 16,
    ensures
        hex_value(hex_digit_lower(d)) == d,
{
}

/// The first `n` digits of the hyphenated form of `v` denote `v` divided by
/// `16` to the power of the digits that remain.
proof fn lemma_hyphenated_prefix(v: u128, n: nat)
    requires
        n <= 32,
    ensures
        hyphenated_prefix_value(uuid_hyphenated(v), n) == v as int / pow(16, (32 - n) as nat),
    decreases n,
{
    let s = uuid_hyphenated(v);
    if n == 0 {
        reveal_with_fuel(pow, 33);
        assert(pow(16, 32) == 0x1_0000_0000_0000_0000_0000_0000_0000_0000int);
        let p = pow(16, 32);
        assert(v as int / p == 0) by (nonlinear_arith)
            requires
                0 <= v as int,
                (v as int) < p,
        ;
    } else {
        lemma_hyphenated_prefix(v, (n - 1) as nat);
        let k = n - 1;
        let b = pow(16, (31 - k) as nat);
        lemma_pow_positive(16, (31 - k) as nat);
        assert(pow(16, (32 - k) as nat) == 16 * b) by {
            reveal(pow);
        }
        let pos = hyphenated_digit_position(k);
        assert(hyphenated_digit_index(pos) == k);
        assert(s[pos] == hex_digit_lower(uuid_nibble(v, k)));
        let x = v as int / b;
        lemma_div_pos_is_pos(v as int, b);
        assert(uuid_nibble(v, k) == x % 16);
        lemma_mod_bound(x, 16);
        lemma_hex_digit_value(x % 16);
        lemma_div_denominator(v as int, b, 16);
        assert(b * 16 == 16 * b);
        lemma_fundamental_div_mod(x, 16);
    }
}

/// The text of a thread id is its hyphenated form, and that form parses back to
/// the same value: `ThreadId::from_string` of `to_string` gives the thread id back.
pub proof fn lemma_thread_id_text_round_trip(v: u128)
    ensures
        is_hyphenated_uuid(uuid_hyphenated(v)),
        hyphenated_value(uuid_hyphenated(v)) == v as int,
{
    let s = uuid_hyphenated(v);
    assert forall|k: int| 0 <= k < 32 implies hex_value(#[trigger] s[hyphenated_digit_position(k)])
        >= 0 by {
        let pos = hyphenated_digit_position(k);
        assert(hyphenated_digit_index(pos) == k);
        let b = pow(16, (31 - k) as nat);
        lemma_pow_positive(16, (31 - k) as nat);
        lemma_div_pos_is_pos(v as int, b);
        lemma_mod_bound(v as int / b, 16);
        lemma_hex_digit_value(uuid_nibble(v, k));
    }
    lemma_hyphenated_prefix(v, 32);
    assert(pow(16, 0) == 1) by {
        reveal(pow);
    }
}

} // verus!
