//! The `traceparent` header of W3C Trace Context: its form and what it holds.
//!
//! A value reads `00-<trace id>-<span id>-<flags>`: the version `00`, then a
//! trace id of 32, a span id of 16 and flags of two lower-case hexadecimal
//! digits, each after a dash.

use crate::context::ParentContext;
use vstd::prelude::*;
use vstd::utf8::{is_ascii_chars, is_ascii_chars_encode_utf8};

verus! {

/// Name of the header that carries the caller's trace and span.
pub const TRACEPARENT_HEADER: &'static str = "traceparent";

/// Number of characters in a `traceparent` value.
pub const TRACEPARENT_LEN: usize = 55;

/// A lower-case hexadecimal digit.
pub open spec fn is_hex_digit(c: char) -> bool {
    ('0' <= c && c <= '9') || ('a' <= c && c <= 'f')
}

/// Whether `c` may stand at place `i` of a `traceparent` value: the version is
/// `00`, a dash follows the version, the trace id and the span id, and every
/// other place holds a hexadecimal digit.
pub open spec fn fits_traceparent(i: int, c: char) -> bool {
    if i == 0 || i == 1 {
        c == '0'
    } else if i == 2 || i == 35 || i == 52 {
        c == '-'
    } else {
        is_hex_digit(c)
    }
}

/// Whether a text has the form of a `traceparent` value.
pub open spec fn is_traceparent(text: Seq<char>) -> bool {
    &&& text.len() == TRACEPARENT_LEN
    &&& forall|i: int| 0 <= i < text.len() ==> fits_traceparent(i, #[trigger] text[i])
}

/// The 32 digits of the trace id in a `traceparent` value.
pub open spec fn trace_id_digits(text: Seq<char>) -> Seq<char> {
    text.subrange(3, 35)
}

/// The 16 digits of the span id in a `traceparent` value.
pub open spec fn span_id_digits(text: Seq<char>) -> Seq<char> {
    text.subrange(36, 52)
}

/// The two digits of the flags in a `traceparent` value.
pub open spec fn flags_digits(text: Seq<char>) -> Seq<char> {
    text.subrange(53, 55)
}

/// The number that a hexadecimal digit stands for.
pub open spec fn hex_digit_value(c: char) -> nat {
    if '0' <= c && c <= '9' {
        (c as u32 - '0' as u32) as nat
    } else {
        (c as u32 - 'a' as u32 + 10) as nat
    }
}

/// The number that a run of hexadecimal digits stands for, most significant
/// digit first.
pub open spec fn hex_value(digits: Seq<char>) -> nat
    decreases digits.len(),
{
    if digits.len() == 0 {
        0
    } else {
        16 * hex_value(digits.drop_last()) + hex_digit_value(digits.last())
    }
}

/// The trace id, the span id and the sampled flag that a well-formed
/// `traceparent` value holds. A zero trace id or span id names no parent. Of the
/// flags only the lowest bit counts.
pub open spec fn traceparent_fields(text: Seq<char>) -> Option<(u128, u64, bool)> {
    let trace_id = hex_value(trace_id_digits(text));
    let span_id = hex_value(span_id_digits(text));
    let flags = hex_value(flags_digits(text));
    if trace_id == 0 || span_id == 0 {
        None
    } else {
        Some((trace_id as u128, span_id as u64, flags % 2 == 1))
    }
}

/// The parent context that a header value stands for: none unless the value is
/// well-formed and names a parent.
pub open spec fn decoded_parent(text: Seq<char>) -> Option<ParentContext> {
    if is_traceparent(text) {
        match traceparent_fields(text) {
            Some((trace_id, span_id, sampled)) => Some(
                ParentContext { trace_id, span_id, sampled },
            ),
            None => None,
        }
    } else {
        None
    }
}

/// Sixteen to the power of `n`.
pub open spec fn pow16(n: nat) -> nat
    decreases n,
{
    if n == 0 {
        1
    } else {
        16 * pow16((n - 1) as nat)
    }
}

/// Calls `fastrace::collector::SpanContext::decode_w3c_traceparent` and hands out
/// the three fields of the context it returns. On a well-formed value the
/// decoder finds the version `00` and three more fields, reads each as a
/// hexadecimal number, rejects a zero trace id or span id, and takes the lowest
/// bit of the flags as the sampled flag.
#[verifier::external_body]
fn decode_w3c_traceparent(text: &str) -> (fields: Option<(u128, u64, bool)>)
    requires
        is_traceparent(text@),
    ensures
        fields == traceparent_fields(text@),
{
    fastrace::collector::SpanContext::decode_w3c_traceparent(text)
        .map(|context| (context.trace_id.0, context.span_id.0, context.sampled))
}

/// A well-formed `traceparent` value holds ASCII characters only.
pub proof fn lemma_traceparent_is_ascii(text: Seq<char>)
    requires
        is_traceparent(text),
    ensures
        is_ascii_chars(text),
{
    assert forall|i: int| 0 <= i < text.len() implies '\0' <= #[trigger] text[i] && text[i]
        <= '\u{7f}' by {
        assert(fits_traceparent(i, text[i]));
    }
}

/// A value of another length, with another version, or with anything but a
/// lower-case hexadecimal digit at a place inside a field names no parent.
pub proof fn lemma_malformed_value_names_no_parent(text: Seq<char>, i: int)
    requires
        text.len() != TRACEPARENT_LEN || (0 <= i < text.len() && !fits_traceparent(i, text[i])),
    ensures
        !is_traceparent(text),
        decoded_parent(text) is None,
{
}

/// Sixteen to the `a + b` is sixteen to the `a` times sixteen to the `b`.
pub proof fn lemma_pow16_adds(a: nat, b: nat)
    ensures
        pow16(a + b) == pow16(a) * pow16(b),
    decreases a,
{
    if a > 0 {
        lemma_pow16_adds((a - 1) as nat, b);
        assert(pow16(a + b) == 16 * pow16((a - 1 + b) as nat));
        assert(16 * (pow16((a - 1) as nat) * pow16(b)) == (16 * pow16((a - 1) as nat)) * pow16(b))
            by (nonlinear_arith);
    } else {
        assert(pow16(a + b) == pow16(b));
        assert(1 * pow16(b) == pow16(b));
    }
}

/// A run of `n` hexadecimal digits stands for a number below sixteen to the `n`.
pub proof fn lemma_hex_value_bound(digits: Seq<char>)
    requires
        forall|i: int| 0 <= i < digits.len() ==> is_hex_digit(#[trigger] digits[i]),
    ensures
        hex_value(digits) < pow16(digits.len()),
    decreases digits.len(),
{
    if digits.len() > 0 {
        let front = digits.drop_last();
        assert forall|i: int| 0 <= i < front.len() implies is_hex_digit(#[trigger] front[i]) by {
            assert(front[i] == digits[i]);
        }
        lemma_hex_value_bound(front);
        assert(is_hex_digit(digits[digits.len() - 1]));
        assert(hex_digit_value(digits.last()) < 16);
    }
}

/// The fields of a well-formed `traceparent` value fit the integers that hold
/// them: the trace id 128 bits, the span id 64 bits, the flags eight bits.
pub proof fn lemma_traceparent_fields_fit(text: Seq<char>)
    requires
        is_traceparent(text),
    ensures
        hex_value(trace_id_digits(text)) <= u128::MAX,
        hex_value(span_id_digits(text)) <= u64::MAX,
        hex_value(flags_digits(text)) <= u8::MAX,
{
    let trace_id = trace_id_digits(text);
    let span_id = span_id_digits(text);
    let flags = flags_digits(text);
    assert forall|i: int| 0 <= i < trace_id.len() implies is_hex_digit(#[trigger] trace_id[i]) by {
        assert(fits_traceparent(i + 3, text[i + 3]));
    }
    assert forall|i: int| 0 <= i < span_id.len() implies is_hex_digit(#[trigger] span_id[i]) by {
        assert(fits_traceparent(i + 36, text[i + 36]));
    }
    assert forall|i: int| 0 <= i < flags.len() implies is_hex_digit(#[trigger] flags[i]) by {
        assert(fits_traceparent(i + 53, text[i + 53]));
    }
    lemma_hex_value_bound(trace_id);
    lemma_hex_value_bound(span_id);
    lemma_hex_value_bound(flags);
    assert(pow16(2) == 0x100) by {
        reveal_with_fuel(pow16, 3);
    }
    assert(pow16(16) == 0x1_0000_0000_0000_0000) by {
        reveal_with_fuel(pow16, 17);
    }
    assert(pow16(32) == 0x1_0000_0000_0000_0000 * 0x1_0000_0000_0000_0000) by {
        lemma_pow16_adds(16, 16);
    }
}

/// A header value that decodes holds its parent's fields in hexadecimal.
pub proof fn lemma_decoded_parent_holds_fields(text: Seq<char>, parent: ParentContext)
    requires
        decoded_parent(text) == Some(parent),
    ensures
        is_traceparent(text),
        parent.trace_id == hex_value(trace_id_digits(text)),
        parent.span_id == hex_value(span_id_digits(text)),
        parent.sampled == (hex_value(flags_digits(text)) % 2 == 1),
        parent.trace_id != 0,
        parent.span_id != 0,
{
    lemma_traceparent_fields_fit(text);
}

fn byte_fits_traceparent(i: usize, byte: u8) -> (fits: bool)
    requires
        byte < 128,
    ensures
        fits == fits_traceparent(i as int, byte as char),
{
    // 0x30 to 0x39 are the digits `0` to `9`, 0x61 to 0x66 the letters `a` to `f`,
    // and 0x2d is the dash.
    if i == 0 || i == 1 {
        byte == 0x30
    } else if i == 2 || i == 35 || i == 52 {
        byte == 0x2d
    } else {
        (0x30 <= byte && byte <= 0x39) || (0x61 <= byte && byte <= 0x66)
    }
}

/// Tells whether a header value has the form of a `traceparent`.
pub fn has_traceparent_form(text: &str) -> (well_formed: bool)
    ensures
        well_formed == is_traceparent(text@),
{
    if !text.is_ascii() {
        proof {
            if is_traceparent(text@) {
                lemma_traceparent_is_ascii(text@);
            }
        }
        return false;
    }
    let bytes = text.as_bytes();
    proof {
        is_ascii_chars_encode_utf8(text@);
    }
    if bytes.len() != TRACEPARENT_LEN {
        return false;
    }
    let mut i: usize = 0;
    while i < TRACEPARENT_LEN
        invariant
            i <= TRACEPARENT_LEN,
            text@.len() == TRACEPARENT_LEN,
            bytes@.len() == TRACEPARENT_LEN,
            is_ascii_chars(text@),
            forall|j: int| 0 <= j < bytes@.len() ==> text@[j] as u8 == #[trigger] bytes@[j],
            forall|j: int| 0 <= j < i ==> fits_traceparent(j, #[trigger] text@[j]),
        decreases TRACEPARENT_LEN - i,
    {
        let byte = bytes[i];
        assert(text@[i as int] == byte as char);
        if !byte_fits_traceparent(i, byte) {
            assert(!fits_traceparent(i as int, text@[i as int]));
            return false;
        }
        i += 1;
    }
    true
}

/// Decodes a `traceparent` header value. A value that is not well-formed, or
/// that names a zero trace id or span id, gives no parent.
pub fn parse_traceparent(text: &str) -> (parent: Option<ParentContext>)
    ensures
        parent == decoded_parent(text@),
{
    if !has_traceparent_form(text) {
        return None;
    }
    match decode_w3c_traceparent(text) {
        Some((trace_id, span_id, sampled)) => Some(ParentContext { trace_id, span_id, sampled }),
        None => None,
    }
}

} // verus!
