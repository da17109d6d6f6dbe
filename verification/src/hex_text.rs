//! Hexadecimal text: the digits, and bytes written out two digits each.

use vstd::prelude::*;
use crate::text::ascii_lower_char;

verus! {

/// Whether `c` is one of `0-9`, `a-f`, `A-F`.
pub open spec fn is_hex_digit(c: char) -> bool {
    ('0' <= c <= '9') || ('a' <= c <= 'f') || ('A' <= c <= 'F')
}

/// The number a hexadecimal digit stands for.
pub open spec fn hex_digit_value(c: char) -> int {
    if '0' <= c <= '9' {
        c as int - 48
    } else if 'a' <= c <= 'f' {
        c as int - 87
    } else {
        c as int - 55
    }
}

/// The lower-case hexadecimal digit for a number below sixteen.
pub open spec fn lower_hex_digit(v: int) -> char {
    if v < 10 {
        (v + 48) as char
    } else {
        (v + 87) as char
    }
}

/// Digit `d` of a byte sequence written in hexadecimal: the high half of a
/// byte, then its low half.
pub open spec fn nibble(bytes: Seq<u8>, d: int) -> int {
    if d % 2 == 0 {
        bytes[d / 2] as int / 16
    } else {
        bytes[d / 2] as int % 16
    }
}

/// Bytes as lower-case hexadecimal text, two digits for each byte.
pub open spec fn hex_text(bytes: Seq<u8>) -> Seq<char> {
    Seq::new(2 * bytes.len(), |d: int| lower_hex_digit(nibble(bytes, d)))
}

/// Calls `hex::encode`.
///
/// Trusted: each byte comes out as two lower-case hexadecimal digits, the
/// high half first, in the order of the input.
#[verifier::external_body]
pub(crate) fn hex_encode(data: &[u8]) -> (text: String)
    ensures
        text@ == hex_text(data@),
{
    ::hex::encode(data)
}

/// A lower-case digit is a hexadecimal digit and stands for its number.
pub proof fn lemma_lower_hex_digit(v: int)
    requires
        0 <= v < 16,
    ensures
        is_hex_digit(lower_hex_digit(v)),
        hex_digit_value(lower_hex_digit(v)) == v,
        ascii_lower_char(lower_hex_digit(v)) == lower_hex_digit(v),
{
}

/// Rendering the number of a hexadecimal digit gives the digit in lower case.
pub proof fn lemma_hex_digit_lowered(c: char)
    requires
        is_hex_digit(c),
    ensures
        0 <= hex_digit_value(c) < 16,
        lower_hex_digit(hex_digit_value(c)) == ascii_lower_char(c),
{
}

/// Hexadecimal text tells byte sequences apart: equal texts come from equal
/// bytes.
pub proof fn lemma_hex_text_injective(a: Seq<u8>, b: Seq<u8>)
    requires
        hex_text(a) == hex_text(b),
    ensures
        a == b,
{
    assert(hex_text(a).len() == 2 * a.len());
    assert(hex_text(b).len() == 2 * b.len());
    assert(a.len() == b.len());
    assert forall|k: int| 0 <= k < a.len() implies a[k] == b[k] by {
        lemma_lower_hex_digit(nibble(a, 2 * k));
        lemma_lower_hex_digit(nibble(a, 2 * k + 1));
        lemma_lower_hex_digit(nibble(b, 2 * k));
        lemma_lower_hex_digit(nibble(b, 2 * k + 1));
        assert(hex_text(a)[2 * k] == lower_hex_digit(nibble(a, 2 * k)));
        assert(hex_text(b)[2 * k] == lower_hex_digit(nibble(b, 2 * k)));
        assert(hex_text(a)[2 * k + 1] == lower_hex_digit(nibble(a, 2 * k + 1)));
        assert(hex_text(b)[2 * k + 1] == lower_hex_digit(nibble(b, 2 * k + 1)));
    }
    assert(a =~= b);
}

} // verus!
