//! PII redaction: detect e-mail addresses, phone numbers and card numbers,
//! and replace them with redaction markers.
//!
//! Every match position is a byte offset into the text.

use vstd::prelude::*;

use super::KnowledgeError;
use crate::text::{
    char_is_ascii_digit, char_is_whitespace, chars_of, decimal, is_digit, is_white_space,
    push_decimal, push_str, string_of_range,
};
use vstd::string::StringSliceAdditionalSpecFns;
use vstd::utf8::{
    encode_scalar, encode_utf8, last_continuation_byte, leading_byte_width_2, leading_byte_width_3,
    leading_byte_width_4, second_last_continuation_byte, third_last_continuation_byte,
};

verus! {

broadcast use vstd::utf8::char_is_scalar;

/// Type of PII detected.
#[derive(Debug, Clone, Copy, PartialEq, Eq, Structural)]
pub enum PiiType {
    Email,
    PhoneNumber,
    CreditCard,
    Ssn,
    IpAddress,
}

/// A PII detection match.
#[derive(Debug, Clone)]
pub struct PiiMatch {
    pub pii_type: PiiType,
    pub start: usize,
    pub end: usize,
    pub redacted: String,
}

// ---------------------------------------------------------------------------
// Character and byte positions
// ---------------------------------------------------------------------------

/// Unicode `Alphabetic` or `Numeric`, the property `char::is_alphanumeric`
/// tests.
pub uninterp spec fn unicode_alphanumeric(c: char) -> bool;

/// `char::is_alphanumeric`. Claimed: its result is `unicode_alphanumeric(c)`.
#[verifier::external_body]
fn char_is_alphanumeric(c: char) -> (r: bool)
    ensures
        r == unicode_alphanumeric(c),
{
    c.is_alphanumeric()
}

/// Number of bytes of the UTF-8 encoding of `c`.
pub open spec fn char_width(c: char) -> nat {
    if (c as u32) <= 0x7f {
        1
    } else if (c as u32) <= 0x7ff {
        2
    } else if (c as u32) <= 0xffff {
        3
    } else {
        4
    }
}

/// Byte offset of character `k` of `t` in its UTF-8 encoding.
pub open spec fn byte_offset(t: Seq<char>, k: int) -> nat
    decreases k,
{
    if k <= 0 {
        0
    } else {
        byte_offset(t, k - 1) + char_width(t[k - 1])
    }
}

proof fn lemma_encode_push(s: Seq<char>, c: char)
    ensures
        encode_utf8(s.push(c)).len() == encode_utf8(s).len() + char_width(c),
    decreases s.len(),
{
    if s.len() == 0 {
        assert(s.push(c).drop_first() =~= Seq::<char>::empty());
        assert(encode_utf8(Seq::<char>::empty()).len() == 0);
    } else {
        assert(s.push(c).drop_first() =~= s.drop_first().push(c));
        lemma_encode_push(s.drop_first(), c);
    }
    assert(encode_scalar(c as u32).len() == char_width(c));
}

/// Byte offsets agree with the length of the UTF-8 encoding.
proof fn lemma_byte_offset_utf8(t: Seq<char>, k: int)
    requires
        0 <= k <= t.len(),
    ensures
        encode_utf8(t.take(k)).len() == byte_offset(t, k),
    decreases k,
{
    if k == 0 {
        assert(t.take(0) =~= Seq::<char>::empty());
    } else {
        lemma_byte_offset_utf8(t, k - 1);
        assert(t.take(k) =~= t.take(k - 1).push(t[k - 1]));
        lemma_encode_push(t.take(k - 1), t[k - 1]);
    }
}

/// Byte offsets grow by at least one per character.
proof fn lemma_byte_offset_mono(t: Seq<char>, a: int, b: int)
    requires
        0 <= a <= b,
    ensures
        byte_offset(t, a) + (b - a) <= byte_offset(t, b),
    decreases b - a,
{
    if a < b {
        lemma_byte_offset_mono(t, a, b - 1);
    }
}

/// The offsets `byte_offset(t, k)` for `k` in `0..=t.len()`.
fn byte_offsets(text: &str, t: &Vec<char>) -> (bo: Vec<usize>)
    requires
        t@ == text@,
    ensures
        bo@.len() == t@.len() + 1,
        forall|k: int| 0 <= k <= t@.len() ==> bo@[k] == byte_offset(t@, k),
        byte_offset(t@, t@.len() as int) == text.spec_bytes().len(),
{
    proof {
        lemma_byte_offset_utf8(t@, t@.len() as int);
        assert(t@.take(t@.len() as int) =~= t@);
        assert(encode_utf8(text@) == encode_utf8(t@.take(t@.len() as int)));
    }
    let total = text.as_bytes().len();
    let mut bo: Vec<usize> = Vec::new();
    bo.push(0);
    let mut acc: usize = 0;
    let mut k: usize = 0;
    while k < t.len()
        invariant
            0 <= k <= t@.len(),
            bo@.len() == k + 1,
            acc == byte_offset(t@, k as int),
            total == byte_offset(t@, t@.len() as int),
            forall|i: int| 0 <= i <= k ==> bo@[i] == byte_offset(t@, i),
        decreases t@.len() - k,
    {
        proof {
            lemma_byte_offset_mono(t@, k + 1, t@.len() as int);
        }
        let c = t[k];
        let w: usize = if (c as u32) <= 0x7f {
            1
        } else if (c as u32) <= 0x7ff {
            2
        } else if (c as u32) <= 0xffff {
            3
        } else {
            4
        };
        acc = acc + w;
        bo.push(acc);
        k = k + 1;
    }
    bo
}

// ---------------------------------------------------------------------------
// E-mail addresses
// ---------------------------------------------------------------------------

/// A character that ends the local part of an e-mail address, scanning back
/// from the `@`.
pub open spec fn email_break(c: char) -> bool {
    !unicode_alphanumeric(c) && c != '.' && c != '-' && c != '_'
}

/// The last position before `k` holding a break character, or -1.
pub open spec fn last_break(t: Seq<char>, k: int) -> int
    decreases k,
{
    if k <= 0 {
        -1
    } else if email_break(t[k - 1]) {
        k - 1
    } else {
        last_break(t, k - 1)
    }
}

/// The first position at or after `i` holding white space, or the length.
pub open spec fn first_white(t: Seq<char>, i: int) -> int
    decreases t.len() - i,
{
    if i >= t.len() {
        t.len() as int
    } else if is_white_space(t[i]) {
        i
    } else {
        first_white(t, i + 1)
    }
}

/// Byte offset where the address around the `@` at `k` starts: one byte
/// after the break character, or 0.
pub open spec fn email_start(t: Seq<char>, k: int) -> int {
    if last_break(t, k) < 0 {
        0
    } else {
        (byte_offset(t, last_break(t, k)) + 1) as int
    }
}

/// Byte offset where the address around the `@` at `k` ends: the next white
/// space, or the end of the text.
pub open spec fn email_end(t: Seq<char>, k: int) -> int {
    byte_offset(t, first_white(t, k)) as int
}

/// Position `k` holds an `@` whose surrounding address contains a dot.
pub open spec fn email_at(t: Seq<char>, k: int) -> bool {
    t[k] == '@' && t.subrange(last_break(t, k) + 1, first_white(t, k)).contains('.')
}

/// Every break character found before an `@` is one byte long, so the
/// address starts on a character boundary. Text where this fails cannot be
/// scanned.
pub open spec fn email_scan_safe(t: Seq<char>) -> bool {
    forall|k: int|
        0 <= k < t.len() && t[k] == '@' ==> (last_break(t, k) < 0 || char_width(
            #[trigger] t[last_break(t, k)],
        ) == 1)
}

/// The e-mail matches at positions `0..n`, in order.
pub open spec fn email_matches(t: Seq<char>, n: int) -> Seq<(PiiType, int, int)>
    decreases n,
{
    if n <= 0 {
        Seq::empty()
    } else {
        email_matches(t, n - 1) + (if email_at(t, n - 1) {
            seq![(PiiType::Email, email_start(t, n - 1), email_end(t, n - 1))]
        } else {
            Seq::empty()
        })
    }
}

// ---------------------------------------------------------------------------
// Phone numbers and digit runs
// ---------------------------------------------------------------------------

/// Characters that may continue a phone number.
pub open spec fn phone_char(c: char) -> bool {
    is_digit(c) || c == '-' || c == ' ' || c == '(' || c == ')'
}

/// The first position at or after `i` not holding a phone character.
pub open spec fn phone_run_end(t: Seq<char>, i: int) -> int
    decreases t.len() - i,
{
    if i >= t.len() || !phone_char(t[i]) {
        i
    } else {
        phone_run_end(t, i + 1)
    }
}

pub proof fn lemma_phone_run_end(t: Seq<char>, i: int)
    ensures
        i <= phone_run_end(t, i),
        i <= t.len() ==> phone_run_end(t, i) <= t.len(),
    decreases t.len() - i,
{
    if i < t.len() && phone_char(t[i]) {
        lemma_phone_run_end(t, i + 1);
    }
}

/// Number of digits in `t[a..b]`.
pub open spec fn count_digits(t: Seq<char>, a: int, b: int) -> nat
    decreases b - a,
{
    if b <= a {
        0
    } else {
        count_digits(t, a, b - 1) + (if is_digit(t[b - 1]) { 1nat } else { 0nat })
    }
}

/// The phone-number runs from position `i` on: a run starts at a digit and
/// continues over digits, `-`, space and parentheses; it counts when it holds
/// at least 10 digits. Positions are character indices.
pub open spec fn phone_runs(t: Seq<char>, i: int) -> Seq<(int, int)>
    decreases t.len() - i,
{
    if i < 0 || i >= t.len() {
        Seq::empty()
    } else if is_digit(t[i]) {
        let e = phone_run_end(t, i + 1);
        proof {
            lemma_phone_run_end(t, i + 1);
        }
        (if count_digits(t, i, e) >= 10 { seq![(i, e)] } else { Seq::empty() }) + phone_runs(t, e)
    } else {
        phone_runs(t, i + 1)
    }
}

/// An ASCII digit byte.
pub open spec fn is_digit_byte(b: u8) -> bool {
    48 <= b <= 57
}

/// The first position at or after `i` not holding a digit byte.
pub open spec fn digit_run_end(b: Seq<u8>, i: int) -> int
    decreases b.len() - i,
{
    if i >= b.len() || !is_digit_byte(b[i]) {
        i
    } else {
        digit_run_end(b, i + 1)
    }
}

pub proof fn lemma_digit_run_end(b: Seq<u8>, i: int)
    ensures
        i <= digit_run_end(b, i),
        i <= b.len() ==> digit_run_end(b, i) <= b.len(),
        0 <= i < digit_run_end(b, i) ==> is_digit_byte(b[digit_run_end(b, i) - 1]),
    decreases b.len() - i,
{
    if i < b.len() && is_digit_byte(b[i]) {
        lemma_digit_run_end(b, i + 1);
    }
}

/// The maximal runs of digit bytes from position `i` on whose length lies in
/// `min..=max`. Positions are byte offsets.
pub open spec fn digit_runs(b: Seq<u8>, i: int, min: nat, max: nat) -> Seq<(int, int)>
    decreases b.len() - i,
{
    if i < 0 || i >= b.len() {
        Seq::empty()
    } else if is_digit_byte(b[i]) {
        let e = digit_run_end(b, i);
        proof {
            lemma_digit_run_end(b, i + 1);
        }
        (if min <= e - i <= max { seq![(i, e)] } else { Seq::empty() }) + digit_runs(b, e, min, max)
    } else {
        digit_runs(b, i + 1, min, max)
    }
}

/// Tag runs with a PII type.
pub open spec fn typed(rs: Seq<(int, int)>, ty: PiiType) -> Seq<(PiiType, int, int)> {
    rs.map_values(|r: (int, int)| (ty, r.0, r.1))
}

// ---------------------------------------------------------------------------
// All matches, sorted
// ---------------------------------------------------------------------------

/// Insert `m` after every element whose start is at most `m`'s start
/// (`s` being sorted by start).
pub open spec fn insert_by_start(s: Seq<(PiiType, int, int)>, m: (PiiType, int, int)) -> Seq<(PiiType, int, int)>
    decreases s.len(),
{
    if s.len() == 0 {
        seq![m]
    } else if s.last().1 <= m.1 {
        s.push(m)
    } else {
        insert_by_start(s.drop_last(), m).push(s.last())
    }
}

/// Stable sort by start position.
pub open spec fn sort_by_start(s: Seq<(PiiType, int, int)>) -> Seq<(PiiType, int, int)>
    decreases s.len(),
{
    if s.len() == 0 {
        Seq::empty()
    } else {
        insert_by_start(sort_by_start(s.drop_last()), s.last())
    }
}

/// The phone-number runs of `t` as byte offsets.
pub open spec fn phone_spans(t: Seq<char>) -> Seq<(int, int)> {
    phone_runs(t, 0).map_values(|r: (int, int)| (byte_offset(t, r.0) as int, byte_offset(t, r.1) as int))
}

/// The matches in the order they are found: e-mails, phone numbers, then
/// card numbers (runs of 13 to 19 digits).
pub open spec fn unsorted_matches(t: Seq<char>) -> Seq<(PiiType, int, int)> {
    email_matches(t, t.len() as int) + typed(phone_spans(t), PiiType::PhoneNumber) + typed(
        digit_runs(encode_utf8(t), 0, 13, 19),
        PiiType::CreditCard,
    )
}

/// All matches in `t`, stably sorted by start.
pub open spec fn pii_matches(t: Seq<char>) -> Seq<(PiiType, int, int)> {
    sort_by_start(unsorted_matches(t))
}

/// The redaction marker for a match of type `ty` spanning `len` bytes.
pub open spec fn redaction_marker(ty: PiiType, len: int) -> Seq<char> {
    let head = match ty {
        PiiType::Email => "[REDACTED:EMAIL:"@,
        PiiType::PhoneNumber => "[REDACTED:PHONE:"@,
        _ => "[REDACTED:CC:"@,
    };
    head + decimal(len as nat) + "]"@
}

/// The matches as `(type, start, end)`.
pub open spec fn match_views(ms: Seq<PiiMatch>) -> Seq<(PiiType, int, int)> {
    ms.map_values(|m: PiiMatch| (m.pii_type, m.start as int, m.end as int))
}

/// A match whose marker is the one its type and span call for.
pub open spec fn marker_ok(m: PiiMatch) -> bool {
    m.start <= m.end && m.redacted@ == redaction_marker(m.pii_type, m.end - m.start)
}

/// The marker text for a match.
fn make_marker(ty: PiiType, len: usize) -> (r: String)
    requires
        ty is Email || ty is PhoneNumber || ty is CreditCard,
    ensures
        r@ == redaction_marker(ty, len as int),
{
    let mut out = match ty {
        PiiType::Email => "[REDACTED:EMAIL:".to_owned(),
        PiiType::PhoneNumber => "[REDACTED:PHONE:".to_owned(),
        _ => "[REDACTED:CC:".to_owned(),
    };
    push_decimal(&mut out, len as u64);
    push_str(&mut out, "]");
    out
}

/// Phone-number runs: at least 10 digits, with `-`, space and parentheses
/// allowed between them. Positions are character indices.
fn regex_like_phone(text: &str) -> (r: Vec<(usize, usize)>)
    ensures
        r@.map_values(|p: (usize, usize)| (p.0 as int, p.1 as int)) == phone_runs(text@, 0),
{
    let chars = chars_of(text);
    let ghost t = chars@;
    let mut results: Vec<(usize, usize)> = Vec::new();
    let mut i: usize = 0;
    while i < chars.len()
        invariant
            t == chars@,
            t == text@,
            0 <= i <= t.len(),
            results@.map_values(|p: (usize, usize)| (p.0 as int, p.1 as int)) + phone_runs(t, i as int) == phone_runs(t, 0),
        decreases t.len() - i,
    {
        let ghost before = results@.map_values(|p: (usize, usize)| (p.0 as int, p.1 as int));
        if char_is_ascii_digit(chars[i]) {
            let start = i;
            let mut digit_count: usize = 1;
            i = i + 1;
            proof {
                lemma_phone_run_end(t, start + 1);
                assert(is_digit(t[start as int]));
                reveal_with_fuel(count_digits, 2);
                assert(count_digits(t, start as int, start + 1) == 1);
            }
            while i < chars.len() && (char_is_ascii_digit(chars[i]) || chars[i] == '-' || chars[i] == ' ' || chars[i] == '(' || chars[i] == ')')
                invariant
                    t == chars@,
                    start < i <= t.len(),
                    phone_run_end(t, start + 1) == phone_run_end(t, i as int),
                    digit_count == count_digits(t, start as int, i as int),
                    digit_count <= i - start,
                decreases t.len() - i,
            {
                if char_is_ascii_digit(chars[i]) {
                    digit_count = digit_count + 1;
                }
                i = i + 1;
            }
            assert(i == phone_run_end(t, start + 1));
            if digit_count >= 10 {
                results.push((start, i));
                assert(results@.map_values(|p: (usize, usize)| (p.0 as int, p.1 as int)) =~= before.push(
                    (start as int, i as int),
                ));
            } else {
                assert(results@.map_values(|p: (usize, usize)| (p.0 as int, p.1 as int)) =~= before);
            }
        } else {
            i = i + 1;
        }
    }
    results
}

/// Maximal runs of ASCII digit bytes whose length lies in `min_len..=max_len`.
/// Positions are byte offsets.
fn find_digit_sequences(text: &str, min_len: usize, max_len: usize) -> (r: Vec<(usize, usize)>)
    ensures
        r@.map_values(|p: (usize, usize)| (p.0 as int, p.1 as int)) == digit_runs(
            text.spec_bytes(),
            0,
            min_len as nat,
            max_len as nat,
        ),
{
    let bytes = text.as_bytes();
    let ghost b = bytes@;
    let mut results: Vec<(usize, usize)> = Vec::new();
    let mut i: usize = 0;
    while i < bytes.len()
        invariant
            b == bytes@,
            b == text.spec_bytes(),
            0 <= i <= b.len(),
            results@.map_values(|p: (usize, usize)| (p.0 as int, p.1 as int)) + digit_runs(b, i as int, min_len as nat, max_len as nat)
                == digit_runs(b, 0, min_len as nat, max_len as nat),
        decreases b.len() - i,
    {
        let ghost before = results@.map_values(|p: (usize, usize)| (p.0 as int, p.1 as int));
        if 48 <= bytes[i] && bytes[i] <= 57 {
            let start = i;
            proof {
                lemma_digit_run_end(b, start + 1);
            }
            while i < bytes.len() && 48 <= bytes[i] && bytes[i] <= 57
                invariant
                    b == bytes@,
                    start <= i <= b.len(),
                    digit_run_end(b, start as int) == digit_run_end(b, i as int),
                decreases b.len() - i,
            {
                i = i + 1;
            }
            let len = i - start;
            if len >= min_len && len <= max_len {
                results.push((start, i));
                assert(results@.map_values(|p: (usize, usize)| (p.0 as int, p.1 as int)) =~= before.push(
                    (start as int, i as int),
                ));
            } else {
                assert(results@.map_values(|p: (usize, usize)| (p.0 as int, p.1 as int)) =~= before);
            }
        } else {
            i = i + 1;
        }
    }
    results
}

/// Phone runs start before they end.
proof fn lemma_phone_runs_ordered(t: Seq<char>, i: int)
    ensures
        forall|q: int| 0 <= q < phone_runs(t, i).len() ==> 0 <= #[trigger] phone_runs(t, i)[q].0 < phone_runs(t, i)[q].1 <= t.len(),
    decreases t.len() - i,
{
    if 0 <= i < t.len() {
        if is_digit(t[i]) {
            let e = phone_run_end(t, i + 1);
            lemma_phone_run_end(t, i + 1);
            lemma_phone_runs_ordered(t, e);
            let first: Seq<(int, int)> = if count_digits(t, i, e) >= 10 { seq![(i, e)] } else { Seq::empty() };
            assert(phone_runs(t, i) == first + phone_runs(t, e));
            assert forall|q: int| 0 <= q < phone_runs(t, i).len() implies 0 <= #[trigger] phone_runs(t, i)[q].0 < phone_runs(t, i)[q].1 <= t.len() by {
                if q >= first.len() {
                    assert(phone_runs(t, i)[q] == phone_runs(t, e)[q - first.len()]);
                }
            }
        } else {
            lemma_phone_runs_ordered(t, i + 1);
            assert(phone_runs(t, i) == phone_runs(t, i + 1));
        }
    }
}

/// The span of a digit run: it starts before it ends, and its first and
/// last bytes are digits.
pub open spec fn digit_span_ok(b: Seq<u8>, r: (int, int)) -> bool {
    0 <= r.0 < r.1 <= b.len() && is_digit_byte(b[r.0]) && is_digit_byte(b[r.1 - 1])
}

/// Digit runs start before they end, and begin and end with digits.
proof fn lemma_digit_runs_ordered(b: Seq<u8>, i: int, min: nat, max: nat)
    ensures
        forall|q: int| 0 <= q < digit_runs(b, i, min, max).len() ==> digit_span_ok(b, #[trigger] digit_runs(b, i, min, max)[q]),
    decreases b.len() - i,
{
    if 0 <= i < b.len() {
        if is_digit_byte(b[i]) {
            let e = digit_run_end(b, i);
            lemma_digit_run_end(b, i);
            lemma_digit_run_end(b, i + 1);
            assert(e == digit_run_end(b, i + 1));
            lemma_digit_runs_ordered(b, e, min, max);
            let first: Seq<(int, int)> = if min <= e - i <= max { seq![(i, e)] } else { Seq::empty() };
            assert(digit_runs(b, i, min, max) == first + digit_runs(b, e, min, max));
            assert forall|q: int| 0 <= q < digit_runs(b, i, min, max).len() implies digit_span_ok(b, #[trigger] digit_runs(b, i, min, max)[q]) by {
                if q >= first.len() {
                    assert(digit_runs(b, i, min, max)[q] == digit_runs(b, e, min, max)[q - first.len()]);
                }
            }
        } else {
            lemma_digit_runs_ordered(b, i + 1, min, max);
            assert(digit_runs(b, i, min, max) == digit_runs(b, i + 1, min, max));
        }
    }
}

/// The character is a break character for the local part of an address.
fn is_email_break(c: char) -> (r: bool)
    ensures
        r == email_break(c),
{
    !char_is_alphanumeric(c) && c != '.' && c != '-' && c != '_'
}

/// The position just after the last break character before `k` (0 when
/// there is none).
fn local_part_start(t: &Vec<char>, k: usize) -> (j: usize)
    requires
        k <= t@.len(),
    ensures
        j <= k,
        j as int - 1 == last_break(t@, k as int),
{
    let mut j: usize = k;
    while j > 0 && !is_email_break(t[j - 1])
        invariant
            j <= k <= t@.len(),
            last_break(t@, k as int) == last_break(t@, j as int),
        decreases j,
    {
        j = j - 1;
    }
    j
}

/// The first white-space position at or after `i`, or the length.
fn first_white_exec(t: &Vec<char>, i: usize) -> (e: usize)
    requires
        i <= t@.len(),
    ensures
        i <= e <= t@.len(),
        e == first_white(t@, i as int),
{
    let mut e: usize = i;
    while e < t.len() && !char_is_whitespace(t[e])
        invariant
            i <= e <= t@.len(),
            first_white(t@, i as int) == first_white(t@, e as int),
        decreases t@.len() - e,
    {
        e = e + 1;
    }
    e
}

/// Whether `t[a..b]` holds a `.`.
fn has_dot(t: &Vec<char>, a: usize, b: usize) -> (r: bool)
    requires
        a <= b <= t@.len(),
    ensures
        r == t@.subrange(a as int, b as int).contains('.'),
{
    let ghost s = t@.subrange(a as int, b as int);
    let mut i: usize = a;
    while i < b
        invariant
            a <= i <= b <= t@.len(),
            s == t@.subrange(a as int, b as int),
            forall|q: int| 0 <= q < i - a ==> s[q] != '.',
        decreases b - i,
    {
        if t[i] == '.' {
            assert(s[i - a] == '.');
            return true;
        }
        i = i + 1;
    }
    false
}

/// Whether every break character found before an `@` is one byte long.
pub fn pii_scan_is_safe(text: &str) -> (r: bool)
    ensures
        r == email_scan_safe(text@),
{
    let t = chars_of(text);
    let mut k: usize = 0;
    while k < t.len()
        invariant
            t@ == text@,
            0 <= k <= t@.len(),
            forall|q: int|
                0 <= q < k && t@[q] == '@' ==> (last_break(t@, q) < 0 || char_width(#[trigger] t@[last_break(t@, q)]) == 1),
        decreases t@.len() - k,
    {
        if t[k] == '@' {
            let j = local_part_start(&t, k);
            if j > 0 && (t[j - 1] as u32) > 0x7f {
                assert(t@[last_break(t@, k as int)] == t@[j - 1]);
                return false;
            }
        }
        k = k + 1;
    }
    true
}

fn push_match(out: &mut Vec<PiiMatch>, ty: PiiType, start: usize, end: usize)
    requires
        ty is Email || ty is PhoneNumber || ty is CreditCard,
        start <= end,
        forall|q: int| 0 <= q < old(out)@.len() ==> marker_ok(#[trigger] old(out)@[q]),
    ensures
        match_views(final(out)@) == match_views(old(out)@).push((ty, start as int, end as int)),
        forall|q: int| 0 <= q < final(out)@.len() ==> marker_ok(#[trigger] final(out)@[q]),
{
    let redacted = make_marker(ty, end - start);
    out.push(PiiMatch { pii_type: ty, start, end, redacted });
    assert(match_views(out@) =~= match_views(old(out)@).push((ty, start as int, end as int)));
}

/// Insert `m` into `out` (sorted by start) after every match starting at or
/// before it.
fn insert_match(out: &mut Vec<PiiMatch>, m: PiiMatch)
    requires
        marker_ok(m),
        forall|q: int| 0 <= q < old(out)@.len() ==> marker_ok(#[trigger] old(out)@[q]),
    ensures
        match_views(final(out)@) == insert_by_start(match_views(old(out)@), (m.pii_type, m.start as int, m.end as int)),
        forall|q: int| 0 <= q < final(out)@.len() ==> marker_ok(#[trigger] final(out)@[q]),
{
    let ghost s = match_views(out@);
    let ghost mv = (m.pii_type, m.start as int, m.end as int);
    let mut p: usize = out.len();
    assert(s.take(p as int) =~= s);
    assert(s.skip(p as int) =~= Seq::<(PiiType, int, int)>::empty());
    while p > 0 && out[p - 1].start > m.start
        invariant
            p <= out@.len(),
            mv == (m.pii_type, m.start as int, m.end as int),
            s == match_views(out@),
            s.len() == out@.len(),
            insert_by_start(s, mv) == insert_by_start(s.take(p as int), mv) + s.skip(p as int),
        decreases p,
    {
        proof {
            let sp = s.take(p as int);
            assert(s[p - 1].1 == out@[p - 1].start as int);
            assert(sp.last() == s[p - 1]);
            assert(sp.drop_last() =~= s.take(p - 1));
            assert(insert_by_start(sp, mv) == insert_by_start(s.take(p - 1), mv).push(s[p - 1]));
            assert(s.skip(p - 1) =~= seq![s[p - 1]] + s.skip(p as int));
            assert(insert_by_start(s.take(p - 1), mv).push(s[p - 1]) + s.skip(p as int) =~= insert_by_start(
                s.take(p - 1),
                mv,
            ) + s.skip(p - 1));
        }
        p = p - 1;
    }
    proof {
        if p == 0 {
            assert(s.take(0) =~= Seq::<(PiiType, int, int)>::empty());
        } else {
            assert(s.take(p as int).last() == s[p - 1]);
        }
        assert(insert_by_start(s.take(p as int), mv) =~= s.take(p as int).push(mv));
    }
    let ghost before = out@;
    out.insert(p, m);
    assert(match_views(out@) =~= s.take(p as int).push(mv) + s.skip(p as int));
    assert forall|q: int| 0 <= q < out@.len() implies marker_ok(#[trigger] out@[q]) by {
        if q < p {
            assert(out@[q] == before[q]);
        } else if q > p {
            assert(out@[q] == before[q - 1]);
        }
    }
}

/// Stable sort of the matches by start position.
fn sort_matches(ms: Vec<PiiMatch>) -> (r: Vec<PiiMatch>)
    requires
        forall|q: int| 0 <= q < ms@.len() ==> marker_ok(#[trigger] ms@[q]),
    ensures
        match_views(r@) == sort_by_start(match_views(ms@)),
        forall|q: int| 0 <= q < r@.len() ==> marker_ok(#[trigger] r@[q]),
{
    let ghost orig = match_views(ms@);
    let n_len = ms.len();
    let ghost n = n_len as nat;
    let mut rest = ms;
    let mut out: Vec<PiiMatch> = Vec::new();
    let mut i: usize = 0;
    while rest.len() > 0
        invariant
            orig.len() == n,
            n <= usize::MAX,
            i + rest@.len() == n,
            match_views(rest@) == orig.skip(i as int),
            match_views(out@) == sort_by_start(orig.take(i as int)),
            forall|q: int| 0 <= q < rest@.len() ==> marker_ok(#[trigger] rest@[q]),
            forall|q: int| 0 <= q < out@.len() ==> marker_ok(#[trigger] out@[q]),
        decreases rest@.len(),
    {
        let ghost before = rest@;
        let m = rest.remove(0);
        assert(marker_ok(before[0]));
        assert(match_views(rest@) =~= orig.skip(i + 1)) by {
            assert(rest@ =~= before.skip(1));
            assert(match_views(before).skip(1) =~= match_views(before.skip(1)));
        }
        assert forall|q: int| 0 <= q < rest@.len() implies marker_ok(#[trigger] rest@[q]) by {
            assert(rest@[q] == before[q + 1]);
        }
        proof {
            assert(orig.take(i + 1).drop_last() =~= orig.take(i as int));
            assert(orig.take(i + 1).last() == match_views(before)[0]);
        }
        insert_match(&mut out, m);
        i = i + 1;
    }
    assert(orig.take(n as int) =~= orig);
    out
}

/// Detect PII in `text`: e-mail addresses, phone numbers and card numbers,
/// as byte offsets, stably sorted by start. Text where an address would start inside a multi-byte character is
/// excluded.
pub fn detect_pii(text: &str) -> (r: Result<Vec<PiiMatch>, KnowledgeError>)
    requires
        email_scan_safe(text@),
    ensures
        r matches Ok(ms) && match_views(ms@) == pii_matches(text@) && forall|q: int|
            0 <= q < ms@.len() ==> marker_ok(#[trigger] ms@[q]),
{
    let t = chars_of(text);
    let bo = byte_offsets(text, &t);
    let mut matches: Vec<PiiMatch> = Vec::new();
    // E-mail addresses.
    let mut k: usize = 0;
    while k < t.len()
        invariant
            t@ == text@,
            0 <= k <= t@.len(),
            bo@.len() == t@.len() + 1,
            forall|q: int| 0 <= q <= t@.len() ==> bo@[q] == byte_offset(t@, q),
            match_views(matches@) == email_matches(t@, k as int),
            forall|q: int| 0 <= q < matches@.len() ==> marker_ok(#[trigger] matches@[q]),
        decreases t@.len() - k,
    {
        if t[k] == '@' {
            let j = local_part_start(&t, k);
            let e = first_white_exec(&t, k);
            proof {
                lemma_byte_offset_mono(t@, j as int, e as int);
                if j > 0 {
                    lemma_byte_offset_mono(t@, j - 1, j as int);
                }
            }
            let start: usize = if j == 0 {
                0
            } else {
                bo[j - 1] + 1
            };
            let end: usize = bo[e];
            if has_dot(&t, j, e) {
                push_match(&mut matches, PiiType::Email, start, end);
            }
        }
        k = k + 1;
    }
    // Phone numbers, found by character and reported by byte offset.
    let phones = regex_like_phone(text);
    proof {
        lemma_phone_runs_ordered(t@, 0);
    }
    let ghost after_email = match_views(matches@);
    let ghost spans = phone_spans(text@);
    let mut i: usize = 0;
    while i < phones.len()
        invariant
            t@ == text@,
            spans == phone_spans(text@),
            bo@.len() == t@.len() + 1,
            forall|q: int| 0 <= q <= t@.len() ==> bo@[q] == byte_offset(t@, q),
            0 <= i <= phones@.len(),
            phones@.map_values(|p: (usize, usize)| (p.0 as int, p.1 as int)) == phone_runs(text@, 0),
            forall|q: int|
                0 <= q < phone_runs(text@, 0).len() ==> 0 <= #[trigger] phone_runs(text@, 0)[q].0 < phone_runs(text@, 0)[q].1
                    <= text@.len(),
            match_views(matches@) == after_email + typed(spans, PiiType::PhoneNumber).take(i as int),
            forall|q: int| 0 <= q < matches@.len() ==> marker_ok(#[trigger] matches@[q]),
        decreases phones@.len() - i,
    {
        let (a, b) = phones[i];
        assert(phone_runs(text@, 0)[i as int] == (a as int, b as int));
        proof {
            lemma_byte_offset_mono(t@, a as int, b as int);
        }
        let sa = bo[a];
        let sb = bo[b];
        assert(spans[i as int] == (sa as int, sb as int));
        push_match(&mut matches, PiiType::PhoneNumber, sa, sb);
        assert(typed(spans, PiiType::PhoneNumber).take(i + 1) =~= typed(spans, PiiType::PhoneNumber).take(i as int).push(
            (PiiType::PhoneNumber, sa as int, sb as int),
        ));
        i = i + 1;
    }
    assert(typed(spans, PiiType::PhoneNumber).take(i as int) =~= typed(spans, PiiType::PhoneNumber));
    // Card numbers: runs of 13 to 19 digits.
    let cards = find_digit_sequences(text, 13, 19);
    let ghost b = text.spec_bytes();
    proof {
        lemma_digit_runs_ordered(b, 0, 13, 19);
    }
    let ghost after_phone = match_views(matches@);
    let mut i: usize = 0;
    while i < cards.len()
        invariant
            0 <= i <= cards@.len(),
            b == encode_utf8(text@),
            cards@.map_values(|p: (usize, usize)| (p.0 as int, p.1 as int)) == digit_runs(b, 0, 13, 19),
            forall|q: int| 0 <= q < digit_runs(b, 0, 13, 19).len() ==> digit_span_ok(b, #[trigger] digit_runs(b, 0, 13, 19)[q]),
            match_views(matches@) == after_phone + typed(digit_runs(b, 0, 13, 19), PiiType::CreditCard).take(i as int),
            forall|q: int| 0 <= q < matches@.len() ==> marker_ok(#[trigger] matches@[q]),
        decreases cards@.len() - i,
    {
        let (a, e) = cards[i];
        assert(digit_runs(b, 0, 13, 19)[i as int] == (a as int, e as int));
        push_match(&mut matches, PiiType::CreditCard, a, e);
        assert(typed(digit_runs(b, 0, 13, 19), PiiType::CreditCard).take(i + 1) =~= typed(digit_runs(b, 0, 13, 19), PiiType::CreditCard).take(i as int).push((PiiType::CreditCard, a as int, e as int)));
        i = i + 1;
    }
    assert(typed(digit_runs(b, 0, 13, 19), PiiType::CreditCard).take(i as int) =~= typed(digit_runs(b, 0, 13, 19), PiiType::CreditCard));
    assert(match_views(matches@) == unsorted_matches(text@));
    let sorted = sort_matches(matches);
    Ok(sorted)
}

/// [`detect_pii`] on any text: `None` exactly when an address would start
/// inside a multi-byte character.
pub fn detect_pii_checked(text: &str) -> (r: Option<Vec<PiiMatch>>)
    ensures
        r is Some <==> email_scan_safe(text@),
        r matches Some(ms) ==> match_views(ms@) == pii_matches(text@) && forall|q: int|
            0 <= q < ms@.len() ==> marker_ok(#[trigger] ms@[q]),
{
    if !pii_scan_is_safe(text) {
        return None;
    }
    match detect_pii(text) {
        Ok(ms) => Some(ms),
        Err(_) => None,
    }
}

// ---------------------------------------------------------------------------
// Redaction
// ---------------------------------------------------------------------------

/// Byte offset `a` falls on a character boundary of `t`.
pub open spec fn is_char_boundary_at(t: Seq<char>, a: int) -> bool {
    exists|k: int| 0 <= k <= t.len() && #[trigger] byte_offset(t, k) == a
}

/// The character index at byte offset `a`.
pub open spec fn char_index_at(t: Seq<char>, a: int) -> int {
    choose|k: int| 0 <= k <= t.len() && #[trigger] byte_offset(t, k) == a
}

/// A match can be cut out of `t`: it starts no later than it ends, and both
/// ends fall on character boundaries.
pub open spec fn span_ok(t: Seq<char>, m: (PiiType, int, int)) -> bool {
    m.1 <= m.2 && is_char_boundary_at(t, m.1) && is_char_boundary_at(t, m.2)
}

/// How far the first `n` matches reach: the largest end among them, or 0.
pub open spec fn covered_end(ms: Seq<(PiiType, int, int)>, n: int) -> int
    decreases n,
{
    if n <= 0 {
        0
    } else if ms[n - 1].2 > covered_end(ms, n - 1) {
        ms[n - 1].2
    } else {
        covered_end(ms, n - 1)
    }
}

/// Match `i` starts at or after the end of every match before it, so it gets
/// a marker of its own; a match that overlaps an earlier one is merged into
/// it.
pub open spec fn starts_fresh(ms: Seq<(PiiType, int, int)>, i: int) -> bool {
    covered_end(ms, i) <= ms[i].1
}

/// The redacted text up to the end of match `n - 1`: for each match that
/// starts fresh, the text since the last covered byte, then its marker.
pub open spec fn redact_upto(t: Seq<char>, ms: Seq<(PiiType, int, int)>, n: int) -> Seq<char>
    decreases n,
{
    if n <= 0 {
        Seq::empty()
    } else if starts_fresh(ms, n - 1) {
        redact_upto(t, ms, n - 1) + t.subrange(
            char_index_at(t, covered_end(ms, n - 1)),
            char_index_at(t, ms[n - 1].1),
        ) + redaction_marker(ms[n - 1].0, ms[n - 1].2 - ms[n - 1].1)
    } else {
        redact_upto(t, ms, n - 1)
    }
}

/// `t` with every match replaced by its marker, overlapping matches merged
/// into the first of them.
pub open spec fn redacted_text(t: Seq<char>) -> Seq<char> {
    let ms = pii_matches(t);
    redact_upto(t, ms, ms.len() as int) + t.subrange(char_index_at(t, covered_end(ms, ms.len() as int)), t.len() as int)
}

/// Byte offsets seen from the first character.
proof fn lemma_byte_offset_front(t: Seq<char>, k: int)
    requires
        0 <= k < t.len(),
    ensures
        byte_offset(t, k + 1) == char_width(t[0]) + byte_offset(t.drop_first(), k),
    decreases k,
{
    let d = t.drop_first();
    if k > 0 {
        lemma_byte_offset_front(t, k - 1);
        assert(d[k - 1] == t[k]);
        assert(byte_offset(t, k + 1) == byte_offset(t, k) + char_width(t[k]));
        assert(byte_offset(d, k) == byte_offset(d, k - 1) + char_width(d[k - 1]));
    } else {
        assert(byte_offset(t, 0) == 0);
        assert(byte_offset(d, 0) == 0);
        assert(byte_offset(t, 1) == byte_offset(t, 0) + char_width(t[0]));
    }
}

/// Every byte of a multi-byte encoding has its high bit set.
proof fn lemma_high_bytes(c: char)
    requires
        char_width(c) > 1,
    ensures
        forall|j: int| 0 <= j < encode_scalar(c as u32).len() ==> #[trigger] encode_scalar(c as u32)[j] >= 0x80,
{
    let v = c as u32;
    assert(leading_byte_width_2(v) >= 0x80) by (bit_vector);
    assert(leading_byte_width_3(v) >= 0x80) by (bit_vector);
    assert(leading_byte_width_4(v) >= 0x80) by (bit_vector);
    assert(last_continuation_byte(v) >= 0x80) by (bit_vector);
    assert(second_last_continuation_byte(v) >= 0x80) by (bit_vector);
    assert(third_last_continuation_byte(v) >= 0x80) by (bit_vector);
}

/// A byte below 0x80 in the encoding of `t` is a whole character: it starts
/// on a boundary and the next boundary follows it.
proof fn lemma_ascii_byte_boundary(t: Seq<char>, i: int) -> (k: int)
    requires
        0 <= i < encode_utf8(t).len(),
        encode_utf8(t)[i] < 0x80,
    ensures
        0 <= k < t.len(),
        byte_offset(t, k) == i,
        byte_offset(t, k + 1) == i + 1,
    decreases t.len(),
{
    assert(t.len() > 0);
    let c = t[0];
    vstd::utf8::char_is_scalar(c);
    let e0 = encode_scalar(c as u32);
    let rest = t.drop_first();
    assert(encode_utf8(t) == e0 + encode_utf8(rest));
    assert(e0.len() == char_width(c));
    if i < e0.len() {
        if char_width(c) > 1 {
            lemma_high_bytes(c);
            assert(encode_utf8(t)[i] == e0[i]);
        }
        0
    } else {
        assert(encode_utf8(t)[i] == encode_utf8(rest)[i - e0.len()]);
        let k0 = lemma_ascii_byte_boundary(rest, i - e0.len());
        lemma_byte_offset_front(t, k0);
        lemma_byte_offset_front(t, k0 + 1);
        assert(byte_offset(t, k0 + 1) == i);
        assert(byte_offset(t, k0 + 2) == i + 1);
        k0 + 1
    }
}

proof fn lemma_last_break_bounds(t: Seq<char>, k: int)
    ensures
        -1 <= last_break(t, k),
        k > 0 ==> last_break(t, k) < k,
    decreases k,
{
    if k > 0 && !email_break(t[k - 1]) {
        lemma_last_break_bounds(t, k - 1);
    }
}

proof fn lemma_first_white_bounds(t: Seq<char>, i: int)
    requires
        0 <= i <= t.len(),
    ensures
        i <= first_white(t, i) <= t.len(),
    decreases t.len() - i,
{
    if i < t.len() && !is_white_space(t[i]) {
        lemma_first_white_bounds(t, i + 1);
    }
}

/// E-mail matches can be cut out of text that can be scanned.
proof fn lemma_email_spans(t: Seq<char>, n: int)
    requires
        email_scan_safe(t),
        0 <= n <= t.len(),
    ensures
        forall|q: int| 0 <= q < email_matches(t, n).len() ==> span_ok(t, #[trigger] email_matches(t, n)[q]),
    decreases n,
{
    if n > 0 {
        lemma_email_spans(t, n - 1);
        let k = n - 1;
        let prev = email_matches(t, n - 1);
        if email_at(t, k) {
            lemma_last_break_bounds(t, k);
            lemma_first_white_bounds(t, k);
            let lb = last_break(t, k);
            let fw = first_white(t, k);
            let st = if lb < 0 { 0 } else { lb + 1 };
            if lb >= 0 {
                assert(char_width(t[last_break(t, k)]) == 1);
            }
            assert(byte_offset(t, st) == email_start(t, k));
            assert(byte_offset(t, fw) == email_end(t, k));
            lemma_byte_offset_mono(t, st, fw);
            let m = (PiiType::Email, email_start(t, k), email_end(t, k));
            assert(span_ok(t, m));
            assert(email_matches(t, n) == prev.push(m));
            assert forall|q: int| 0 <= q < email_matches(t, n).len() implies span_ok(t, #[trigger] email_matches(t, n)[q]) by {
                if q < prev.len() {
                    assert(email_matches(t, n)[q] == prev[q]);
                }
            }
        } else {
            assert(email_matches(t, n) =~= prev);
        }
    }
}

/// Phone matches can be cut out of any text.
proof fn lemma_phone_spans(t: Seq<char>)
    ensures
        forall|q: int|
            0 <= q < typed(phone_spans(t), PiiType::PhoneNumber).len() ==> span_ok(
                t,
                #[trigger] typed(phone_spans(t), PiiType::PhoneNumber)[q],
            ),
{
    lemma_phone_runs_ordered(t, 0);
    let ps = typed(phone_spans(t), PiiType::PhoneNumber);
    assert forall|q: int| 0 <= q < ps.len() implies span_ok(t, #[trigger] ps[q]) by {
        let r = phone_runs(t, 0)[q];
        assert(0 <= r.0 < r.1 <= t.len());
        lemma_byte_offset_mono(t, r.0, r.1);
        assert(byte_offset(t, r.0) == ps[q].1);
        assert(byte_offset(t, r.1) == ps[q].2);
    }
}

/// Card matches can be cut out of any text: they begin and end with ASCII
/// digits, each a whole character.
proof fn lemma_card_spans(t: Seq<char>)
    ensures
        forall|q: int|
            0 <= q < typed(digit_runs(encode_utf8(t), 0, 13, 19), PiiType::CreditCard).len() ==> span_ok(
                t,
                #[trigger] typed(digit_runs(encode_utf8(t), 0, 13, 19), PiiType::CreditCard)[q],
            ),
{
    let b = encode_utf8(t);
    lemma_digit_runs_ordered(b, 0, 13, 19);
    let cs = typed(digit_runs(b, 0, 13, 19), PiiType::CreditCard);
    assert forall|q: int| 0 <= q < cs.len() implies span_ok(t, #[trigger] cs[q]) by {
        let r = digit_runs(b, 0, 13, 19)[q];
        assert(digit_span_ok(b, r));
        let ka = lemma_ascii_byte_boundary(t, r.0);
        let kb = lemma_ascii_byte_boundary(t, r.1 - 1);
        assert(byte_offset(t, ka) == cs[q].1);
        assert(byte_offset(t, kb + 1) == cs[q].2);
    }
}

/// Inserting a match keeps every match one that can be cut out.
proof fn lemma_insert_spans(t: Seq<char>, s: Seq<(PiiType, int, int)>, m: (PiiType, int, int))
    requires
        forall|q: int| 0 <= q < s.len() ==> span_ok(t, #[trigger] s[q]),
        span_ok(t, m),
    ensures
        forall|q: int| 0 <= q < insert_by_start(s, m).len() ==> span_ok(t, #[trigger] insert_by_start(s, m)[q]),
    decreases s.len(),
{
    if s.len() > 0 && s.last().1 > m.1 {
        let d = s.drop_last();
        assert forall|q: int| 0 <= q < d.len() implies span_ok(t, #[trigger] d[q]) by {
            assert(d[q] == s[q]);
        }
        lemma_insert_spans(t, d, m);
        let r = insert_by_start(d, m);
        assert(span_ok(t, s[s.len() - 1]));
        assert forall|q: int| 0 <= q < insert_by_start(s, m).len() implies span_ok(t, #[trigger] insert_by_start(s, m)[q]) by {
            if q < r.len() {
                assert(insert_by_start(s, m)[q] == r[q]);
            }
        }
    } else if s.len() > 0 {
        assert forall|q: int| 0 <= q < insert_by_start(s, m).len() implies span_ok(t, #[trigger] insert_by_start(s, m)[q]) by {
            if q < s.len() {
                assert(insert_by_start(s, m)[q] == s[q]);
            }
        }
    }
}

/// Sorting keeps every match one that can be cut out.
proof fn lemma_sort_spans(t: Seq<char>, s: Seq<(PiiType, int, int)>)
    requires
        forall|q: int| 0 <= q < s.len() ==> span_ok(t, #[trigger] s[q]),
    ensures
        forall|q: int| 0 <= q < sort_by_start(s).len() ==> span_ok(t, #[trigger] sort_by_start(s)[q]),
    decreases s.len(),
{
    if s.len() > 0 {
        let d = s.drop_last();
        assert forall|q: int| 0 <= q < d.len() implies span_ok(t, #[trigger] d[q]) by {
            assert(d[q] == s[q]);
        }
        lemma_sort_spans(t, d);
        assert(span_ok(t, s[s.len() - 1]));
        lemma_insert_spans(t, sort_by_start(d), s.last());
    }
}

/// Every match found in text that can be scanned can be cut out of it.
pub proof fn lemma_pii_match_spans(t: Seq<char>)
    requires
        email_scan_safe(t),
    ensures
        forall|q: int| 0 <= q < pii_matches(t).len() ==> span_ok(t, #[trigger] pii_matches(t)[q]),
{
    let es = email_matches(t, t.len() as int);
    let ps = typed(phone_spans(t), PiiType::PhoneNumber);
    let cs = typed(digit_runs(encode_utf8(t), 0, 13, 19), PiiType::CreditCard);
    lemma_email_spans(t, t.len() as int);
    lemma_phone_spans(t);
    lemma_card_spans(t);
    let u = unsorted_matches(t);
    assert(u == es + ps + cs);
    assert forall|q: int| 0 <= q < u.len() implies span_ok(t, #[trigger] u[q]) by {
        if q < es.len() {
            assert(u[q] == es[q]);
        } else if q < es.len() + ps.len() {
            assert(u[q] == ps[q - es.len()]);
        } else {
            assert(u[q] == cs[q - es.len() - ps.len()]);
        }
    }
    lemma_sort_spans(t, u);
}

/// The matches are in order of their start.
pub open spec fn sorted_by_start(s: Seq<(PiiType, int, int)>) -> bool {
    forall|i: int, j: int| 0 <= i < j < s.len() ==> #[trigger] s[i].1 <= #[trigger] s[j].1
}

/// Inserting a match keeps every start at most `bound` when both were.
proof fn lemma_insert_bound(s: Seq<(PiiType, int, int)>, m: (PiiType, int, int), bound: int)
    requires
        forall|q: int| 0 <= q < s.len() ==> (#[trigger] s[q]).1 <= bound,
        m.1 <= bound,
    ensures
        forall|q: int| 0 <= q < insert_by_start(s, m).len() ==> (#[trigger] insert_by_start(s, m)[q]).1 <= bound,
    decreases s.len(),
{
    if s.len() > 0 && s.last().1 > m.1 {
        let d = s.drop_last();
        assert forall|q: int| 0 <= q < d.len() implies (#[trigger] d[q]).1 <= bound by {
            assert(d[q] == s[q]);
        }
        lemma_insert_bound(d, m, bound);
        let r = insert_by_start(d, m);
        assert forall|q: int| 0 <= q < insert_by_start(s, m).len() implies (#[trigger] insert_by_start(s, m)[q]).1 <= bound by {
            if q < r.len() {
                assert(insert_by_start(s, m)[q] == r[q]);
            } else {
                assert(insert_by_start(s, m)[q] == s[s.len() - 1]);
            }
        }
    } else if s.len() > 0 {
        assert forall|q: int| 0 <= q < insert_by_start(s, m).len() implies (#[trigger] insert_by_start(s, m)[q]).1 <= bound by {
            if q < s.len() {
                assert(insert_by_start(s, m)[q] == s[q]);
            }
        }
    }
}

/// Inserting into a sorted sequence keeps it sorted.
proof fn lemma_insert_sorted(s: Seq<(PiiType, int, int)>, m: (PiiType, int, int))
    requires
        sorted_by_start(s),
    ensures
        sorted_by_start(insert_by_start(s, m)),
        insert_by_start(s, m).len() == s.len() + 1,
    decreases s.len(),
{
    if s.len() > 0 && s.last().1 > m.1 {
        let d = s.drop_last();
        assert(sorted_by_start(d)) by {
            assert forall|i: int, j: int| 0 <= i < j < d.len() implies #[trigger] d[i].1 <= #[trigger] d[j].1 by {
                assert(d[i] == s[i] && d[j] == s[j]);
            }
        }
        lemma_insert_sorted(d, m);
        let top = s.last().1;
        assert forall|q: int| 0 <= q < d.len() implies (#[trigger] d[q]).1 <= top by {
            assert(d[q] == s[q]);
            assert(s[q].1 <= s[s.len() - 1].1);
        }
        lemma_insert_bound(d, m, top);
        let r = insert_by_start(d, m);
        let out = insert_by_start(s, m);
        assert(out == r.push(s.last()));
        assert forall|i: int, j: int| 0 <= i < j < out.len() implies #[trigger] out[i].1 <= #[trigger] out[j].1 by {
            assert(out[i] == r[i]);
            if j < r.len() {
                assert(out[j] == r[j]);
            }
        }
    } else if s.len() > 0 {
        let out = insert_by_start(s, m);
        assert forall|i: int, j: int| 0 <= i < j < out.len() implies #[trigger] out[i].1 <= #[trigger] out[j].1 by {
            assert(out[i] == s[i]);
            if j < s.len() {
                assert(out[j] == s[j]);
            } else {
                assert(s[i].1 <= s[s.len() - 1].1);
            }
        }
    }
}

/// Sorting by start gives matches in order of their start.
proof fn lemma_sort_sorted(s: Seq<(PiiType, int, int)>)
    ensures
        sorted_by_start(sort_by_start(s)),
        sort_by_start(s).len() == s.len(),
    decreases s.len(),
{
    if s.len() > 0 {
        lemma_sort_sorted(s.drop_last());
        lemma_insert_sorted(sort_by_start(s.drop_last()), s.last());
    }
}

/// Every match among the first `n` ends no later than they reach together.
proof fn lemma_covered_end(ms: Seq<(PiiType, int, int)>, n: int)
    requires
        0 <= n <= ms.len(),
    ensures
        covered_end(ms, n) >= 0,
        forall|q: int| 0 <= q < n ==> (#[trigger] ms[q]).2 <= covered_end(ms, n),
    decreases n,
{
    if n > 0 {
        lemma_covered_end(ms, n - 1);
    }
}

/// Redaction keeps no byte of any match: the text kept before a match that
/// starts fresh, `[covered_end(ms, i), ms[i].1)`, and the tail kept after
/// the last match, `[covered_end(ms, ms.len()), ..)`, lie outside every
/// match of `t`.
pub proof fn lemma_redaction_keeps_no_match_bytes(t: Seq<char>)
    ensures
        ({
            let ms = pii_matches(t);
            &&& forall|i: int, q: int|
                0 <= i < ms.len() && 0 <= q < ms.len() && #[trigger] starts_fresh(ms, i) ==> (#[trigger] ms[q]).2
                    <= covered_end(ms, i) || ms[i].1 <= ms[q].1
            &&& forall|q: int| 0 <= q < ms.len() ==> (#[trigger] ms[q]).2 <= covered_end(ms, ms.len() as int)
        }),
{
    let ms = pii_matches(t);
    lemma_sort_sorted(unsorted_matches(t));
    lemma_covered_end(ms, ms.len() as int);
    assert forall|i: int, q: int|
        0 <= i < ms.len() && 0 <= q < ms.len() && #[trigger] starts_fresh(ms, i) implies (#[trigger] ms[q]).2
            <= covered_end(ms, i) || ms[i].1 <= ms[q].1 by {
        lemma_covered_end(ms, i);
        if q >= i {
            if q > i {
                assert(ms[i].1 <= ms[q].1);
            }
        }
    }
}

proof fn lemma_run_end_at(t: Seq<char>, k: int, e: int)
    requires
        0 <= k <= e <= t.len(),
        forall|m: int| k <= m < e ==> phone_char(#[trigger] t[m]),
        e == t.len() || !phone_char(t[e]),
    ensures
        phone_run_end(t, k) == e,
    decreases e - k,
{
    if k < e {
        lemma_run_end_at(t, k + 1, e);
    }
}

proof fn lemma_run_end_before(t: Seq<char>, k: int, m: int)
    requires
        0 <= k <= m < t.len(),
        !phone_char(t[m]),
    ensures
        phone_run_end(t, k) <= m,
    decreases m - k,
{
    if k < m && phone_char(t[k]) {
        lemma_run_end_before(t, k + 1, m);
    }
}

proof fn lemma_count_digits_filter(t: Seq<char>, a: int, b: int)
    requires
        0 <= a <= b <= t.len(),
    ensures
        count_digits(t, a, b) == t.subrange(a, b).filter(|c: char| '0' <= c && c <= '9').len(),
    decreases b - a,
{
    reveal(Seq::filter);
    let f = |c: char| '0' <= c && c <= '9';
    if a < b {
        lemma_count_digits_filter(t, a, b - 1);
        let sub = t.subrange(a, b);
        assert(sub.drop_last() =~= t.subrange(a, b - 1));
        assert(sub.last() == t[b - 1]);
        assert(is_digit(t[b - 1]) <==> f(t[b - 1]));
    } else {
        assert(t.subrange(a, b).len() == 0);
    }
}

/// The scan that finds phone runs reaches the run starting at `i`.
proof fn lemma_phone_runs_reach(t: Seq<char>, j: int, s: int, i: int, e: int)
    requires
        0 <= j <= i,
        0 <= s <= i < e <= t.len(),
        s > 0 ==> !phone_char(t[s - 1]),
        e == t.len() || !phone_char(t[e]),
        forall|k: int| s <= k < e ==> phone_char(#[trigger] t[k]),
        forall|k: int| s <= k < i ==> !is_digit(#[trigger] t[k]),
        is_digit(t[i]),
        count_digits(t, i, e) >= 10,
    ensures
        phone_runs(t, j).contains((i, e)),
    decreases i - j,
{
    if j == i {
        lemma_run_end_at(t, i + 1, e);
        assert(phone_runs(t, i)[0] == (i, e));
    } else if is_digit(t[j]) {
        assert(j < s);
        assert(j < s - 1) by {
            if j == s - 1 {
                assert(phone_char(t[j]));
            }
        }
        let e2 = phone_run_end(t, j + 1);
        lemma_run_end_before(t, j + 1, s - 1);
        lemma_phone_run_end(t, j + 1);
        lemma_phone_runs_reach(t, e2, s, i, e);
        let first: Seq<(int, int)> = if count_digits(t, j, e2) >= 10 { seq![(j, e2)] } else { Seq::empty() };
        assert(phone_runs(t, j) == first + phone_runs(t, e2));
        let q = choose|q: int| 0 <= q < phone_runs(t, e2).len() && phone_runs(t, e2)[q] == (i, e);
        assert(phone_runs(t, j)[first.len() + q] == (i, e));
    } else {
        lemma_phone_runs_reach(t, j + 1, s, i, e);
        assert(phone_runs(t, j) == phone_runs(t, j + 1));
    }
}

/// Inserting keeps the inserted match and every match already there.
proof fn lemma_insert_keeps(s: Seq<(PiiType, int, int)>, m: (PiiType, int, int))
    ensures
        insert_by_start(s, m).contains(m),
        forall|q: int| 0 <= q < s.len() ==> insert_by_start(s, m).contains(#[trigger] s[q]),
    decreases s.len(),
{
    let out = insert_by_start(s, m);
    if s.len() == 0 {
        assert(out[0] == m);
    } else if s.last().1 <= m.1 {
        assert(out[s.len() as int] == m);
        assert forall|q: int| 0 <= q < s.len() implies out.contains(#[trigger] s[q]) by {
            assert(out[q] == s[q]);
        }
    } else {
        let d = s.drop_last();
        lemma_insert_keeps(d, m);
        let r = insert_by_start(d, m);
        assert(out == r.push(s.last()));
        let jm = choose|j: int| 0 <= j < r.len() && r[j] == m;
        assert(out[jm] == m);
        assert forall|q: int| 0 <= q < s.len() implies out.contains(#[trigger] s[q]) by {
            if q == s.len() - 1 {
                assert(out[r.len() as int] == s[q]);
            } else {
                assert(d[q] == s[q]);
                assert(r.contains(d[q]));
                let j = choose|j: int| 0 <= j < r.len() && r[j] == d[q];
                assert(out[j] == s[q]);
            }
        }
    }
}

/// Sorting keeps every match.
proof fn lemma_sort_keeps(s: Seq<(PiiType, int, int)>)
    ensures
        forall|q: int| 0 <= q < s.len() ==> sort_by_start(s).contains(#[trigger] s[q]),
    decreases s.len(),
{
    if s.len() > 0 {
        let d = s.drop_last();
        lemma_sort_keeps(d);
        let sd = sort_by_start(d);
        lemma_insert_keeps(sd, s.last());
        let out = sort_by_start(s);
        assert forall|q: int| 0 <= q < s.len() implies out.contains(#[trigger] s[q]) by {
            if q < s.len() - 1 {
                assert(d[q] == s[q]);
                assert(sd.contains(d[q]));
                let j = choose|j: int| 0 <= j < sd.len() && sd[j] == d[q];
                assert(out.contains(sd[j]));
            }
        }
    }
}

/// Phone numbers are found where they stand. Take a stretch `t[s..e]` of
/// ASCII digits, `-`, spaces and parentheses that no such character
/// precedes or follows, whose first digit is at `i`, and that holds at
/// least 10 digits: `t[i..e]` is reported as a `PhoneNumber` match at its
/// byte offsets. Spaces and dashes between digit groups do not split it.
pub proof fn lemma_phone_number_found(t: Seq<char>, s: int, i: int, e: int)
    requires
        0 <= s <= i < e <= t.len(),
        s > 0 ==> !(('0' <= t[s - 1] && t[s - 1] <= '9') || t[s - 1] == '-' || t[s - 1] == ' ' || t[s - 1] == '('
            || t[s - 1] == ')'),
        e < t.len() ==> !(('0' <= t[e] && t[e] <= '9') || t[e] == '-' || t[e] == ' ' || t[e] == '(' || t[e] == ')'),
        forall|k: int|
            s <= k < e ==> (('0' <= #[trigger] t[k] && t[k] <= '9') || t[k] == '-' || t[k] == ' ' || t[k] == '('
                || t[k] == ')'),
        forall|k: int| s <= k < i ==> !('0' <= #[trigger] t[k] && t[k] <= '9'),
        '0' <= t[i] && t[i] <= '9',
        t.subrange(i, e).filter(|c: char| '0' <= c && c <= '9').len() >= 10,
    ensures
        pii_matches(t).contains((PiiType::PhoneNumber, byte_offset(t, i) as int, byte_offset(t, e) as int)),
{
    assert forall|k: int| s <= k < e implies phone_char(#[trigger] t[k]) by {}
    assert forall|k: int| s <= k < i implies !is_digit(#[trigger] t[k]) by {}
    lemma_count_digits_filter(t, i, e);
    lemma_phone_runs_reach(t, 0, s, i, e);
    let runs = phone_runs(t, 0);
    let q = choose|q: int| 0 <= q < runs.len() && runs[q] == (i, e);
    let m = (PiiType::PhoneNumber, byte_offset(t, i) as int, byte_offset(t, e) as int);
    let es = email_matches(t, t.len() as int);
    let ps = typed(phone_spans(t), PiiType::PhoneNumber);
    let cs = typed(digit_runs(encode_utf8(t), 0, 13, 19), PiiType::CreditCard);
    let u = unsorted_matches(t);
    assert(u == es + ps + cs);
    assert(ps[q] == m);
    assert(u[es.len() + q] == m);
    lemma_sort_keeps(u);
    assert(pii_matches(t).contains(u[es.len() + q]));
}

proof fn lemma_digit_run_end_at(b: Seq<u8>, k: int, e: int)
    requires
        0 <= k <= e <= b.len(),
        forall|m: int| k <= m < e ==> is_digit_byte(#[trigger] b[m]),
        e == b.len() || !is_digit_byte(b[e]),
    ensures
        digit_run_end(b, k) == e,
    decreases e - k,
{
    if k < e {
        lemma_digit_run_end_at(b, k + 1, e);
    }
}

proof fn lemma_digit_run_end_before(b: Seq<u8>, k: int, m: int)
    requires
        0 <= k <= m < b.len(),
        !is_digit_byte(b[m]),
    ensures
        digit_run_end(b, k) <= m,
    decreases m - k,
{
    if k < m && is_digit_byte(b[k]) {
        lemma_digit_run_end_before(b, k + 1, m);
    }
}

/// The scan that finds digit runs reaches the maximal run `b[a..e]`.
proof fn lemma_digit_runs_reach(b: Seq<u8>, j: int, a: int, e: int, min: nat, max: nat)
    requires
        0 <= j <= a < e <= b.len(),
        forall|k: int| a <= k < e ==> is_digit_byte(#[trigger] b[k]),
        a > 0 ==> !is_digit_byte(b[a - 1]),
        e == b.len() || !is_digit_byte(b[e]),
        min <= e - a <= max,
    ensures
        digit_runs(b, j, min, max).contains((a, e)),
    decreases a - j,
{
    if j == a {
        lemma_digit_run_end_at(b, a, e);
        assert(digit_runs(b, a, min, max)[0] == (a, e));
    } else if is_digit_byte(b[j]) {
        assert(j < a - 1) by {
            if j == a - 1 {
                assert(is_digit_byte(b[j]));
            }
        }
        let e2 = digit_run_end(b, j);
        lemma_digit_run_end_before(b, j, a - 1);
        lemma_digit_run_end(b, j);
        lemma_digit_run_end(b, j + 1);
        lemma_digit_runs_reach(b, e2, a, e, min, max);
        let first: Seq<(int, int)> = if min <= e2 - j <= max { seq![(j, e2)] } else { Seq::empty() };
        assert(digit_runs(b, j, min, max) == first + digit_runs(b, e2, min, max));
        let q = choose|q: int| 0 <= q < digit_runs(b, e2, min, max).len() && digit_runs(b, e2, min, max)[q] == (a, e);
        assert(digit_runs(b, j, min, max)[first.len() + q] == (a, e));
    } else {
        lemma_digit_runs_reach(b, j + 1, a, e, min, max);
        assert(digit_runs(b, j, min, max) == digit_runs(b, j + 1, min, max));
    }
}

/// Card numbers are found where they stand: a run of 13 to 19 ASCII digit
/// bytes in the UTF-8 text, with no digit byte just before or just after it,
/// is reported as a `CreditCard` match at those byte offsets.
pub proof fn lemma_card_number_found(t: Seq<char>, a: int, e: int)
    requires
        0 <= a < e <= encode_utf8(t).len(),
        13 <= e - a <= 19,
        forall|k: int| a <= k < e ==> 48 <= #[trigger] encode_utf8(t)[k] <= 57,
        a > 0 ==> !(48 <= encode_utf8(t)[a - 1] <= 57),
        e < encode_utf8(t).len() ==> !(48 <= encode_utf8(t)[e] <= 57),
    ensures
        pii_matches(t).contains((PiiType::CreditCard, a, e)),
{
    let b = encode_utf8(t);
    lemma_digit_runs_reach(b, 0, a, e, 13, 19);
    let runs = digit_runs(b, 0, 13, 19);
    let q = choose|q: int| 0 <= q < runs.len() && runs[q] == (a, e);
    let es = email_matches(t, t.len() as int);
    let ps = typed(phone_spans(t), PiiType::PhoneNumber);
    let cs = typed(runs, PiiType::CreditCard);
    let u = unsorted_matches(t);
    assert(u == es + ps + cs);
    assert(cs[q] == (PiiType::CreditCard, a, e));
    assert(u[es.len() + ps.len() + q] == (PiiType::CreditCard, a, e));
    lemma_sort_keeps(u);
    assert(pii_matches(t).contains(u[es.len() + ps.len() + q]));
}

/// Distinct characters have distinct byte offsets.
proof fn lemma_char_index_unique(t: Seq<char>, k: int)
    requires
        0 <= k <= t.len(),
    ensures
        char_index_at(t, byte_offset(t, k) as int) == k,
{
    let a = byte_offset(t, k) as int;
    assert(is_char_boundary_at(t, a));
    let c = char_index_at(t, a);
    if c < k {
        lemma_byte_offset_mono(t, c + 1, k);
        lemma_byte_offset_mono(t, c, c + 1);
    } else if c > k {
        lemma_byte_offset_mono(t, k + 1, c);
        lemma_byte_offset_mono(t, k, k + 1);
    }
}

/// The character index whose byte offset is `a`, if there is one.
fn find_byte(bo: &Vec<usize>, a: usize) -> (r: Option<usize>)
    ensures
        r matches Some(k) ==> k < bo@.len() && bo@[k as int] == a,
        r is None ==> forall|k: int| 0 <= k < bo@.len() ==> bo@[k] != a,
{
    let mut k: usize = 0;
    while k < bo.len()
        invariant
            0 <= k <= bo@.len(),
            forall|q: int| 0 <= q < k ==> bo@[q] != a,
        decreases bo@.len() - k,
    {
        if bo[k] == a {
            return Some(k);
        }
        k = k + 1;
    }
    None
}

/// Redact PII in text, replacing each match with its marker
/// (`[REDACTED:<TYPE>:<length>]`, the length in bytes). Matches are cut out
/// by byte offset in order of their start; a match that overlaps one before
/// it is merged into that one, so no byte of any match is kept. Text where an
/// address would start inside a multi-byte character is excluded.
pub fn redact_text(text: &str) -> (r: Result<String, KnowledgeError>)
    requires
        email_scan_safe(text@),
    ensures
        r matches Ok(s) && s@ == redacted_text(text@),
{
    let ms = match detect_pii(text) {
        Ok(ms) => ms,
        Err(e) => return Err(e),
    };
    let ghost mv = match_views(ms@);
    proof {
        lemma_pii_match_spans(text@);
    }
    let t = chars_of(text);
    let bo = byte_offsets(text, &t);
    if ms.len() == 0 {
        proof {
            lemma_char_index_unique(t@, 0);
            assert(t@.subrange(0, t@.len() as int) =~= t@);
            assert(redacted_text(text@) =~= t@);
        }
        return Ok(text.to_owned());
    }
    let mut result = String::new();
    let mut last_end: usize = 0;
    let mut i: usize = 0;
    assert(byte_offset(t@, 0) == 0);
    while i < ms.len()
        invariant
            t@ == text@,
            bo@.len() == t@.len() + 1,
            forall|q: int| 0 <= q <= t@.len() ==> bo@[q] == byte_offset(t@, q),
            mv == match_views(ms@),
            mv == pii_matches(text@),
            forall|q: int| 0 <= q < mv.len() ==> span_ok(t@, #[trigger] mv[q]),
            forall|q: int| 0 <= q < ms@.len() ==> marker_ok(#[trigger] ms@[q]),
            0 <= i <= ms@.len(),
            last_end == covered_end(mv, i as int),
            is_char_boundary_at(t@, last_end as int),
            result@ == redact_upto(t@, mv, i as int),
        decreases ms@.len() - i,
    {
        let m = &ms[i];
        assert(mv[i as int] == (m.pii_type, m.start as int, m.end as int));
        assert(marker_ok(ms@[i as int]));
        assert(span_ok(t@, mv[i as int]));
        if last_end <= m.start {
            let ghost ka = char_index_at(t@, last_end as int);
            let ghost kb = char_index_at(t@, mv[i as int].1);
            proof {
                assert(bo@[ka] == byte_offset(t@, ka));
                assert(bo@[kb] == byte_offset(t@, kb));
            }
            let ca = find_byte(&bo, last_end).unwrap();
            let cb = find_byte(&bo, m.start).unwrap();
            proof {
                lemma_char_index_unique(t@, ca as int);
                lemma_char_index_unique(t@, cb as int);
                if ca > cb {
                    lemma_byte_offset_mono(t@, cb as int + 1, ca as int);
                    lemma_byte_offset_mono(t@, cb as int, cb as int + 1);
                }
            }
            let piece = string_of_range(&t, ca, cb);
            push_str(&mut result, piece.as_str());
            push_str(&mut result, m.redacted.as_str());
            last_end = m.end;
        } else if m.end > last_end {
            last_end = m.end;
        }
        i = i + 1;
    }
    let ghost kf = char_index_at(t@, last_end as int);
    proof {
        assert(bo@[kf] == byte_offset(t@, kf));
    }
    let cf = find_byte(&bo, last_end).unwrap();
    proof {
        lemma_char_index_unique(t@, cf as int);
    }
    let tail = string_of_range(&t, cf, t.len());
    push_str(&mut result, tail.as_str());
    Ok(result)
}

/// [`redact_text`] on any text: `None` exactly when an address would start
/// inside a multi-byte character.
pub fn redact_text_checked(text: &str) -> (r: Option<String>)
    ensures
        r is Some <==> email_scan_safe(text@),
        r matches Some(s) ==> s@ == redacted_text(text@),
{
    if !pii_scan_is_safe(text) {
        return None;
    }
    match redact_text(text) {
        Ok(s) => Some(s),
        Err(_) => None,
    }
}

} // verus!
