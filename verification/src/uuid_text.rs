//! The textual forms of a 128-bit unique identifier, and the calls into the
//! `uuid` crate that parse, generate and render one.
//!
//! An identifier is held as its sixteen bytes, most significant first. Its
//! canonical text is the hyphenated form in lower-case hexadecimal:
//! `xxxxxxxx-xxxx-xxxx-xxxx-xxxxxxxxxxxx`.

use vstd::prelude::*;
use crate::hex_text::{
    hex_digit_value, is_hex_digit, lemma_hex_digit_lowered, lemma_lower_hex_digit, lower_hex_digit,
    nibble,
};
use crate::text::{ascii_lower, ascii_lower_char};

verus! {

/// Where the hyphenated form has its four hyphens.
pub open spec fn is_hyphen_position(i: int) -> bool {
    i == 8 || i == 13 || i == 18 || i == 23
}

/// Which of the 32 digits stands at position `i` of the hyphenated form.
pub open spec fn digit_index(i: int) -> int {
    if i < 8 {
        i
    } else if i < 13 {
        i - 1
    } else if i < 18 {
        i - 2
    } else if i < 23 {
        i - 3
    } else {
        i - 4
    }
}

/// Where digit `d` of 32 stands in the hyphenated form.
pub open spec fn digit_position(d: int) -> int {
    if d < 8 {
        d
    } else if d < 12 {
        d + 1
    } else if d < 16 {
        d + 2
    } else if d < 20 {
        d + 3
    } else {
        d + 4
    }
}

/// The simple form: 32 hexadecimal digits.
pub open spec fn is_simple(s: Seq<char>) -> bool {
    &&& s.len() == 32
    &&& forall|i: int| 0 <= i < 32 ==> is_hex_digit(#[trigger] s[i])
}

/// The hyphenated form: 36 characters, hyphens after the 8th, 12th, 16th and
/// 20th digit, hexadecimal digits of either case elsewhere.
pub open spec fn is_hyphenated(s: Seq<char>) -> bool {
    &&& s.len() == 36
    &&& forall|i: int|
        0 <= i < 36 ==> if is_hyphen_position(i) {
            #[trigger] s[i] == '-'
        } else {
            is_hex_digit(s[i])
        }
}

/// The prefix of the URN form, `urn:uuid:`.
pub open spec fn urn_prefix() -> Seq<char> {
    seq!['u', 'r', 'n', ':', 'u', 'u', 'i', 'd', ':']
}

/// The URN form: `urn:uuid:` followed by the hyphenated form.
pub open spec fn is_urn(s: Seq<char>) -> bool {
    &&& s.len() == 45
    &&& s.subrange(0, 9) == urn_prefix()
    &&& is_hyphenated(s.subrange(9, 45))
}

/// Whether `s` is an identifier in one of its three textual forms.
pub open spec fn is_uuid_text(s: Seq<char>) -> bool {
    is_simple(s) || is_hyphenated(s) || is_urn(s)
}

/// The 32 digits of a textual form, in order.
pub open spec fn digits_of(s: Seq<char>) -> Seq<char> {
    if s.len() == 32 {
        s
    } else if s.len() == 36 {
        Seq::new(32, |d: int| s[digit_position(d)])
    } else {
        Seq::new(32, |d: int| s[9 + digit_position(d)])
    }
}

/// The sixteen bytes that 32 hexadecimal digits spell, two digits a byte.
pub open spec fn bytes_of_digits(digits: Seq<char>) -> Seq<u8> {
    Seq::new(
        16,
        |k: int| (16 * hex_digit_value(digits[2 * k]) + hex_digit_value(digits[2 * k + 1])) as u8,
    )
}

/// The identifier that a textual form denotes.
pub open spec fn uuid_text_value(s: Seq<char>) -> Seq<u8> {
    bytes_of_digits(digits_of(s))
}

/// The canonical text of an identifier: hyphenated, lower-case.
pub open spec fn canonical_text(bytes: Seq<u8>) -> Seq<char> {
    Seq::new(
        36,
        |i: int|
            if is_hyphen_position(i) {
                '-'
            } else {
                lower_hex_digit(nibble(bytes, digit_index(i)))
            },
    )
}

/// The layout of a randomly generated identifier: version 4 in the high half
/// of byte 6, the RFC 4122 variant in the two top bits of byte 8.
pub open spec fn is_version4(bytes: Seq<u8>) -> bool {
    &&& bytes.len() == 16
    &&& bytes[6] as int / 16 == 4
    &&& bytes[8] as int / 64 == 2
}

/// What `uuid::Uuid::parse_str` makes of a text: the identifier's bytes, or
/// `None` where it returns an error.
pub uninterp spec fn uuid_parse_str(text: Seq<char>) -> Option<Seq<u8>>;

/// Calls `uuid::Uuid::parse_str` and hands out the parsed identifier's bytes.
///
/// Trusted: the outcome is the parser's, a function of the text alone; and
/// the parser accepts the simple, the hyphenated and the URN form, reading
/// the digits in order, two to a byte. Nothing is claimed of other texts.
#[verifier::external_body]
pub(crate) fn parse_uuid(text: &str) -> (parsed: Option<[u8; 16]>)
    ensures
        match parsed {
            Some(bytes) => uuid_parse_str(text@) == Some(bytes@),
            None => uuid_parse_str(text@) is None,
        },
        is_uuid_text(text@) ==> parsed is Some && parsed->0@ == uuid_text_value(text@),
{
    match uuid::Uuid::parse_str(text) {
        Ok(id) => Some(*id.as_bytes()),
        Err(_) => None,
    }
}

/// Calls `uuid::Uuid::new_v4` and hands out the new identifier's bytes.
///
/// Trusted: whatever the random bytes, the version and variant fields are
/// set as `is_version4` says. The call panics if the operating system
/// yields no random bytes.
#[verifier::external_body]
pub(crate) fn random_uuid() -> (bytes: [u8; 16])
    ensures
        is_version4(bytes@),
{
    *uuid::Uuid::new_v4().as_bytes()
}

/// Renders an identifier with the `Display` impl of `uuid::Uuid`.
///
/// Trusted: the text is the hyphenated lower-case form of the bytes.
#[verifier::external_body]
pub(crate) fn format_uuid(bytes: &[u8; 16]) -> (text: String)
    ensures
        text@ == canonical_text(bytes@),
{
    uuid::Uuid::from_bytes(*bytes).to_string()
}

/// The canonical text of any sixteen bytes is in hyphenated form, is its own
/// lower-case, and denotes those bytes again.
pub proof fn lemma_canonical_text_round_trip(bytes: Seq<u8>)
    requires
        bytes.len() == 16,
    ensures
        is_hyphenated(canonical_text(bytes)),
        is_uuid_text(canonical_text(bytes)),
        ascii_lower(canonical_text(bytes)) == canonical_text(bytes),
        uuid_text_value(canonical_text(bytes)) == bytes,
{
    let text = canonical_text(bytes);
    assert forall|i: int| 0 <= i < 36 implies (if is_hyphen_position(i) {
        #[trigger] text[i] == '-'
    } else {
        is_hex_digit(text[i])
    }) && ascii_lower_char(text[i]) == text[i] by {
        if !is_hyphen_position(i) {
            lemma_lower_hex_digit(nibble(bytes, digit_index(i)));
        }
    }
    assert(ascii_lower(text) =~= text);
    let digits = digits_of(text);
    assert forall|k: int| 0 <= k < 16 implies #[trigger] bytes_of_digits(digits)[k] == bytes[k] by {
        let hi = digit_position(2 * k);
        let lo = digit_position(2 * k + 1);
        assert(digit_index(hi) == 2 * k);
        assert(digit_index(lo) == 2 * k + 1);
        assert(digits[2 * k] == text[hi]);
        assert(digits[2 * k + 1] == text[lo]);
        lemma_lower_hex_digit(nibble(bytes, 2 * k));
        lemma_lower_hex_digit(nibble(bytes, 2 * k + 1));
    }
    assert(uuid_text_value(text) =~= bytes);
}

/// For a text in hyphenated form, the canonical text of the identifier it
/// denotes is the text itself in lower case.
pub proof fn lemma_canonical_text_of_hyphenated(s: Seq<char>)
    requires
        is_hyphenated(s),
    ensures
        canonical_text(uuid_text_value(s)) == ascii_lower(s),
{
    let bytes = uuid_text_value(s);
    let digits = digits_of(s);
    assert forall|i: int| 0 <= i < 36 implies #[trigger] canonical_text(bytes)[i] == ascii_lower(
        s,
    )[i] by {
        if is_hyphen_position(i) {
            assert(s[i] == '-');
        } else {
            let d = digit_index(i);
            let k = d / 2;
            assert(digit_position(d) == i);
            assert(digit_position(2 * k) < 36 && !is_hyphen_position(digit_position(2 * k)));
            assert(digit_position(2 * k + 1) < 36 && !is_hyphen_position(
                digit_position(2 * k + 1),
            ));
            assert(is_hex_digit(s[digit_position(2 * k)]));
            assert(is_hex_digit(s[digit_position(2 * k + 1)]));
            lemma_hex_digit_lowered(digits[2 * k]);
            lemma_hex_digit_lowered(digits[2 * k + 1]);
            let hi = hex_digit_value(digits[2 * k]);
            let lo = hex_digit_value(digits[2 * k + 1]);
            assert(bytes[k] == 16 * hi + lo);
            assert(nibble(bytes, d) == if d % 2 == 0 {
                hi
            } else {
                lo
            });
        }
    }
    assert(canonical_text(bytes) =~= ascii_lower(s));
}

/// A text whose lower case is in hyphenated form is in hyphenated form.
pub proof fn lemma_hyphenated_ignores_case(s: Seq<char>)
    requires
        is_hyphenated(ascii_lower(s)),
    ensures
        is_hyphenated(s),
{
    let low = ascii_lower(s);
    assert forall|i: int| 0 <= i < 36 implies if is_hyphen_position(i) {
        #[trigger] s[i] == '-'
    } else {
        is_hex_digit(s[i])
    } by {
        assert(low[i] == ascii_lower_char(s[i]));
        if is_hyphen_position(i) {
            assert(low[i] == '-');
        } else {
            assert(is_hex_digit(low[i]));
        }
    }
}

} // verus!
