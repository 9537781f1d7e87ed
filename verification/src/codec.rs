//! Bodies written down as text: hexadecimal digits and Base64.

use vstd::prelude::*;
use crate::text::{
    all_spaces, is_space, leading_spaces, lemma_trimmed, strip_0x, trailing_spaces, trim, trimmed,
    without_0x,
};

verus! {

/// The value of a hexadecimal digit, in either case.
pub open spec fn hex_digit_value(c: char) -> Option<u8> {
    let u = c as u32;
    if 48 <= u <= 57 {
        Some((u - 48) as u8)
    } else if 97 <= u <= 102 {
        Some((u - 87) as u8)
    } else if 65 <= u <= 70 {
        Some((u - 55) as u8)
    } else {
        None
    }
}

/// The bytes that a text of hexadecimal digits stands for: two digits for
/// each byte, the high half first. `None` where the number of characters is
/// odd or one of them is no hexadecimal digit.
pub open spec fn hex_decoded(text: Seq<char>) -> Option<Seq<u8>> {
    if text.len() % 2 == 0 && (forall|i: int|
        0 <= i < text.len() ==> hex_digit_value(#[trigger] text[i]) is Some) {
        Some(
            Seq::new(
                text.len() / 2,
                |i: int|
                    (hex_digit_value(text[2 * i])->0 * 16 + hex_digit_value(text[2 * i + 1])->0) as u8,
            ),
        )
    } else {
        None
    }
}

/// The lower-case hexadecimal digit for a value below 16.
pub open spec fn hex_digit(v: int) -> char {
    if 0 <= v < 10 {
        (48 + v) as char
    } else {
        (87 + v) as char
    }
}

/// The bytes in lower-case hexadecimal digits, two for each byte.
pub open spec fn hex_encoded(bytes: Seq<u8>) -> Seq<char> {
    Seq::new(
        2 * bytes.len(),
        |i: int|
            if i % 2 == 0 {
                hex_digit(bytes[i / 2] as int / 16)
            } else {
                hex_digit(bytes[i / 2] as int % 16)
            },
    )
}

/// The bytes that the `output` text of a response of the hexadecimal kind
/// stands for: the text without the white space around it and without a
/// leading `0x`, read as hexadecimal digits.
pub open spec fn hex_payload(output: Seq<char>) -> Option<Seq<u8>> {
    hex_decoded(trimmed(without_0x(trimmed(output))))
}

/// A name for the bytes that `base64` decodes from a text with its standard
/// engine (the standard alphabet, with padding); `None` where it reports an
/// error.
pub uninterp spec fn base64_decoded(text: Seq<char>) -> Option<Seq<u8>>;

/// The bytes that the `output` text of a response of the Base64 kind stands
/// for: the text without the white space around it, decoded.
pub open spec fn base64_payload(output: Seq<char>) -> Option<Seq<u8>> {
    base64_decoded(trimmed(output))
}

/// Calls `hex::decode`, which reads two digits of either case for each byte
/// and fails on an odd length or on any other character. The error is handed
/// on as its text.
#[verifier::external_body]
fn hex_decode(text: &str) -> (r: Result<Vec<u8>, String>)
    ensures
        match hex_decoded(text@) {
            Some(bytes) => r is Ok && r->Ok_0@ == bytes,
            None => r is Err,
        },
{
    hex::decode(text).map_err(|e| e.to_string())
}

/// Calls `hex::encode`, which writes two lower-case digits for each byte.
#[verifier::external_body]
pub(crate) fn hex_encode(bytes: &Vec<u8>) -> (r: String)
    ensures
        r@ == hex_encoded(bytes@),
{
    hex::encode(bytes)
}

/// Calls `decode` of the standard engine of `base64`. The contract only
/// names the result; the error is handed on as its text.
#[verifier::external_body]
fn base64_decode(text: &str) -> (r: Result<Vec<u8>, String>)
    ensures
        match base64_decoded(text@) {
            Some(bytes) => r is Ok && r->Ok_0@ == bytes,
            None => r is Err,
        },
{
    base64::Engine::decode(&base64::prelude::BASE64_STANDARD, text).map_err(|e| e.to_string())
}

/// Reads the `output` text of a response of the hexadecimal kind.
pub fn decode_hex_output(output: &str) -> (r: Result<Vec<u8>, String>)
    ensures
        match hex_payload(output@) {
            Some(bytes) => r is Ok && r->Ok_0@ == bytes,
            None => r is Err,
        },
{
    hex_decode(trim(strip_0x(trim(output))))
}

/// Reads the `output` text of a response of the Base64 kind.
pub fn decode_base64_output(output: &str) -> (r: Result<Vec<u8>, String>)
    ensures
        match base64_payload(output@) {
            Some(bytes) => r is Ok && r->Ok_0@ == bytes,
            None => r is Err,
        },
{
    base64_decode(trim(output))
}

/// Decoding what was encoded gives the bytes back.
pub proof fn lemma_hex_round_trip(bytes: Seq<u8>)
    ensures
        hex_decoded(hex_encoded(bytes)) == Some(bytes),
{
    let text = hex_encoded(bytes);
    assert forall|i: int| 0 <= i < text.len() implies hex_digit_value(#[trigger] text[i]) is Some by {
        lemma_hex_digit(bytes[i / 2] as int / 16);
        lemma_hex_digit(bytes[i / 2] as int % 16);
    }
    let back = hex_decoded(text)->0;
    assert(back.len() == bytes.len());
    assert forall|k: int| 0 <= k < bytes.len() implies back[k] == bytes[k] by {
        lemma_hex_digit(bytes[k] as int / 16);
        lemma_hex_digit(bytes[k] as int % 16);
        assert((2 * k) % 2 == 0);
        assert((2 * k + 1) % 2 == 1);
        assert((2 * k) / 2 == k);
        assert((2 * k + 1) / 2 == k);
    }
    assert(back =~= bytes);
}

/// The digit for a value below 16 has that value, and is no white space and
/// no `x`.
pub proof fn lemma_hex_digit(v: int)
    requires
        0 <= v < 16,
    ensures
        hex_digit_value(hex_digit(v)) == Some(v as u8),
        !is_space(hex_digit(v)),
        hex_digit(v) != 'x',
{
    let c = hex_digit(v);
    if v < 10 {
        assert(c as u32 == 48 + v);
    } else {
        assert(c as u32 == 87 + v);
    }
}

/// A body written as the `output` text of the hexadecimal kind is read back
/// as it was.
pub proof fn lemma_hex_output_round_trip(bytes: Seq<u8>)
    ensures
        hex_payload(hex_encoded(bytes)) == Some(bytes),
{
    let text = hex_encoded(bytes);
    lemma_hex_round_trip(bytes);
    lemma_digits_trimmed(bytes);
    assert(trimmed(text) == text);
    if text.len() >= 2 {
        lemma_hex_digit(bytes[0] as int % 16);
        assert(text[1] == hex_digit(bytes[0] as int % 16));
    }
    assert(without_0x(text) == text);
}

/// A hexadecimal digit of either case is no white space and no `x`.
pub proof fn lemma_digit_is_plain(c: char)
    requires
        hex_digit_value(c) is Some,
    ensures
        !is_space(c),
        c != 'x',
{
}

/// The text of a response of the hexadecimal kind stands for the bytes that
/// its digits stand for, whatever the case of the digits, with or without a
/// leading `0x`, and with any white space around it.
pub proof fn lemma_hex_output_law(
    before: Seq<char>,
    prefixed: bool,
    digits: Seq<char>,
    after: Seq<char>,
    bytes: Seq<u8>,
)
    requires
        all_spaces(before),
        all_spaces(after),
        hex_decoded(digits) == Some(bytes),
    ensures
        hex_payload(
            before + (if prefixed {
                seq!['0', 'x'] + digits
            } else {
                digits
            }) + after,
        ) == Some(bytes),
{
    let core = if prefixed {
        seq!['0', 'x'] + digits
    } else {
        digits
    };
    if digits.len() > 0 {
        lemma_digit_is_plain(digits[0]);
        lemma_digit_is_plain(digits.last());
        assert(core.last() == digits.last());
    }
    if prefixed {
        assert(core[0] == '0');
        if digits.len() == 0 {
            assert(core.last() == 'x');
        }
    }
    lemma_trimmed(before, core, after);
    if prefixed {
        assert(core.subrange(2, core.len() as int) =~= digits);
        assert(without_0x(core) == digits);
    } else {
        if digits.len() >= 2 {
            lemma_digit_is_plain(digits[1]);
        }
        assert(without_0x(core) == digits);
    }
    assert(Seq::<char>::empty() + digits + Seq::<char>::empty() =~= digits);
    lemma_trimmed(Seq::empty(), digits, Seq::empty());
}

proof fn lemma_digits_trimmed(bytes: Seq<u8>)
    ensures
        trimmed(hex_encoded(bytes)) == hex_encoded(bytes),
{
    let text = hex_encoded(bytes);
    if text.len() > 0 {
        lemma_hex_digit(bytes[0] as int / 16);
        assert(text[0] == hex_digit(bytes[0] as int / 16));
        let last = text.len() - 1;
        assert(last % 2 == 1) by {
            assert(text.len() == 2 * bytes.len());
        }
        lemma_hex_digit(bytes[last / 2] as int % 16);
        assert(text.last() == hex_digit(bytes[last / 2] as int % 16));
    }
    assert(leading_spaces(text) == 0);
    let rest = text.subrange(0, text.len() as int);
    assert(rest =~= text);
    assert(trailing_spaces(text) == 0);
    assert(text.subrange(0, text.len() as int) =~= text);
}

} // verus!
