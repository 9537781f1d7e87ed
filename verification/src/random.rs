//! Random values for templates and scripts.

use vstd::prelude::*;
use crate::codec::{hex_encode, hex_encoded};

verus! {

/// The most random bytes that are handed out in one call: the buffer for
/// them and the text of twice their number have to be allocated.
pub const MAX_RANDOM_BYTES: u64 = 1_048_576;

/// The number of random bytes that are handed out where none is asked for.
pub const DEFAULT_RANDOM_BYTES: u64 = 32;

/// `rand::random` for a number of 128 bits: any value may come.
#[verifier::external_body]
fn random_wide() -> u128 {
    rand::random::<u128>()
}

/// `Rng::random_range` on the thread's generator, for a range that is not
/// empty: the result lies in it.
#[verifier::external_body]
fn random_between(low: u128, high: u128) -> (r: u128)
    requires
        low < high,
    ensures
        low <= r < high,
{
    rand::Rng::random_range(&mut rand::rng(), low..high)
}

/// `RngCore::fill_bytes` on the thread's generator, for a fresh buffer of
/// `count` bytes: the result has that length.
#[verifier::external_body]
fn random_bytes(count: usize) -> (r: Vec<u8>)
    ensures
        r@.len() == count,
{
    let mut bytes = vec![0u8; count];
    rand::RngCore::fill_bytes(&mut rand::rng(), &mut bytes);
    bytes
}

/// Whether the text has the form of a random UUID: 36 characters, hyphens
/// after the 8th, 13th, 18th and 23rd, the version digit `4` after the
/// second hyphen, and lower-case hexadecimal digits everywhere else.
pub open spec fn is_uuid_v4_text(text: Seq<char>) -> bool {
    &&& text.len() == 36
    &&& forall|i: int|
        0 <= i < 36 ==> if i == 8 || i == 13 || i == 18 || i == 23 {
            #[trigger] text[i] == '-'
        } else if i == 14 {
            text[i] == '4'
        } else {
            ('0' <= text[i] <= '9') || ('a' <= text[i] <= 'f')
        }
}

/// `Uuid::new_v4` in its hyphenated form: a text of the form of
/// [`is_uuid_v4_text`].
#[verifier::external_body]
fn uuid_hyphenated() -> (r: String)
    ensures
        is_uuid_v4_text(r@),
{
    uuid::Uuid::new_v4().to_string()
}

/// Whether `n` is a number that may be drawn for these arguments: any number
/// without arguments; one below `a` with one argument (0 where `a` is 0); one
/// from `a` up to, not including, `b` with two (`a` itself where the range is
/// empty).
pub open spec fn random_num_allows(a: Option<u128>, b: Option<u128>, n: u128) -> bool {
    match (a, b) {
        (None, _) => true,
        (Some(max), None) => if max == 0 {
            n == 0
        } else {
            n < max
        },
        (Some(low), Some(high)) => if low < high {
            low <= n < high
        } else {
            n == low
        },
    }
}

/// The number that is handed out for these arguments once `drawn` was
/// drawn: `drawn` itself without arguments; its remainder by `a` with one
/// argument (0 where `a` is 0); with two, `drawn` where it lies from `a` up
/// to, not including, `b`, and `a` else.
pub open spec fn number_of(drawn: u128, a: Option<u128>, b: Option<u128>) -> u128 {
    match (a, b) {
        (None, _) => drawn,
        (Some(max), None) => if max == 0 {
            0
        } else {
            drawn % max
        },
        (Some(low), Some(high)) => if low <= drawn < high {
            drawn
        } else {
            low
        },
    }
}

/// The number that is handed out for these arguments once `drawn` was drawn.
pub fn number_from(drawn: u128, a: Option<u128>, b: Option<u128>) -> (n: u128)
    ensures
        n == number_of(drawn, a, b),
        random_num_allows(a, b, n),
{
    match a {
        None => drawn,
        Some(first) => match b {
            None => if first == 0 {
                0
            } else {
                drawn % first
            },
            Some(second) => if first <= drawn && drawn < second {
                drawn
            } else {
                first
            },
        },
    }
}

/// Draws a number for these arguments: with two arguments that span a range
/// the draw is made in that range, else among all numbers of 128 bits; what
/// is handed out is [`number_of`] the draw.
pub fn random_number(a: Option<u128>, b: Option<u128>) -> (n: u128)
    ensures
        random_num_allows(a, b, n),
{
    let drawn = match (a, b) {
        (Some(first), Some(second)) => if first < second {
            random_between(first, second)
        } else {
            random_wide()
        },
        _ => random_wide(),
    };
    number_from(drawn, a, b)
}

/// Whether `n` is a number that a script may draw for these arguments: any
/// number that is not negative without arguments; one from 0 up to, not
/// including, `a` with one argument (0 where `a` is not positive); one from
/// `a` up to, not including, `b` with two (`a` itself where the range is
/// empty).
pub open spec fn script_num_allows(a: Option<i64>, b: Option<i64>, n: i64) -> bool {
    match (a, b) {
        (None, _) => n >= 0,
        (Some(max), None) => if max <= 0 {
            n == 0
        } else {
            0 <= n < max
        },
        (Some(low), Some(high)) => if low < high {
            low <= n < high
        } else {
            n == low
        },
    }
}

/// The number that a script gets for these arguments once `drawn` was
/// drawn: the remainder of `drawn` by 2 to the 63rd without arguments; its
/// remainder by `a` with one argument (0 where `a` is not positive); with
/// two, `a` plus the remainder of `drawn` by the width of the range (`a`
/// itself where the range is empty).
pub open spec fn script_number_of(drawn: u128, a: Option<i64>, b: Option<i64>) -> int {
    match (a, b) {
        (None, _) => drawn as int % 0x8000_0000_0000_0000,
        (Some(max), None) => if max <= 0 {
            0
        } else {
            drawn as int % max as int
        },
        (Some(low), Some(high)) => if low < high {
            low + drawn as int % (high - low)
        } else {
            low as int
        },
    }
}

/// The number that a script gets for these arguments once `drawn` was drawn.
pub fn script_number_from(drawn: u128, a: Option<i64>, b: Option<i64>) -> (n: i64)
    ensures
        n == script_number_of(drawn, a, b),
        script_num_allows(a, b, n),
{
    match a {
        None => {
            let wide: u128 = drawn % 0x8000_0000_0000_0000u128;
            wide as i64
        },
        Some(first) => match b {
            None => if first <= 0 {
                0
            } else {
                let wide: u128 = drawn % (first as u128);
                wide as i64
            },
            Some(second) => if first < second {
                let span: i128 = second as i128 - first as i128;
                let offset: u128 = drawn % (span as u128);
                let sum: i128 = first as i128 + offset as i128;
                sum as i64
            } else {
                first
            },
        },
    }
}

/// Draws a number for a script, which counts in 64 bits with a sign: what it
/// gets is [`script_number_of`] a number drawn among all of 128 bits.
pub fn script_random_number(a: Option<i64>, b: Option<i64>) -> (n: i64)
    ensures
        script_num_allows(a, b, n),
{
    script_number_from(random_wide(), a, b)
}

/// More random bytes were asked for than [`MAX_RANDOM_BYTES`].
#[derive(Debug)]
pub struct TooManyBytes {}

/// The number of random bytes that are handed out for this argument.
pub open spec fn random_hex_count(length: Option<u64>) -> u64 {
    match length {
        Some(n) => n,
        None => DEFAULT_RANDOM_BYTES,
    }
}

/// That many random bytes, 32 where no number is given, in hexadecimal
/// digits. It fails exactly where more than [`MAX_RANDOM_BYTES`] are asked
/// for.
pub fn random_hex_text(length: Option<u64>) -> (r: Result<String, TooManyBytes>)
    ensures
        r is Err <==> random_hex_count(length) > MAX_RANDOM_BYTES,
        r is Ok ==> exists|bytes: Seq<u8>|
            bytes.len() == random_hex_count(length) && r->Ok_0@ == hex_encoded(bytes),
{
    let count: u64 = match length {
        Some(n) => n,
        None => DEFAULT_RANDOM_BYTES,
    };
    if count > MAX_RANDOM_BYTES {
        return Err(TooManyBytes {  });
    }
    let bytes = random_bytes(count as usize);
    let text = hex_encode(&bytes);
    assert(bytes@.len() == random_hex_count(length) && text@ == hex_encoded(bytes@));
    Ok(text)
}

/// A random UUID of version 4 as text.
pub fn uuid_text() -> (r: String)
    ensures
        is_uuid_v4_text(r@),
{
    uuid_hyphenated()
}

} // verus!
