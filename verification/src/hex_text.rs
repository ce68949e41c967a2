//! Hexadecimal text: what it denotes, and the calls that read and write it.

use vstd::prelude::*;

verus! {

/// Whether `c` is one of `0`-`9`, `a`-`f` or `A`-`F`.
pub open spec fn is_hex_digit(c: char) -> bool {
    ('0' <= c && c <= '9') || ('a' <= c && c <= 'f') || ('A' <= c && c <= 'F')
}

/// The number from 0 to 15 that the hexadecimal digit `c` stands for.
pub open spec fn hex_digit_value(c: char) -> int
    recommends
        is_hex_digit(c),
{
    if '0' <= c && c <= '9' {
        c as int - '0' as int
    } else if 'a' <= c && c <= 'f' {
        c as int - 'a' as int + 10
    } else {
        c as int - 'A' as int + 10
    }
}

/// The sixteen lowercase digits, each at the index that it stands for.
pub open spec fn lower_hex_digits() -> Seq<char> {
    seq!['0', '1', '2', '3', '4', '5', '6', '7', '8', '9', 'a', 'b', 'c', 'd', 'e', 'f']
}

/// Whether every character of `text` is a hexadecimal digit.
pub open spec fn all_hex_digits(text: Seq<char>) -> bool {
    forall|i: int| 0 <= i < text.len() ==> is_hex_digit(#[trigger] text[i])
}

/// The byte written as the two digits `high` and `low`.
pub open spec fn byte_of_digits(high: char, low: char) -> u8
    recommends
        is_hex_digit(high),
        is_hex_digit(low),
{
    (16 * hex_digit_value(high) + hex_digit_value(low)) as u8
}

/// The bytes that `text` denotes, two digits to a byte, the high digit first.
pub open spec fn hex_bytes(text: Seq<char>) -> Seq<u8>
    recommends
        text.len() % 2 == 0,
        all_hex_digits(text),
{
    Seq::new(text.len() / 2, |i: int| byte_of_digits(text[2 * i], text[2 * i + 1]))
}

/// Decoding into exactly `n` bytes: `text` must consist of `2 * n` hexadecimal
/// digits, in either case. Anything else denotes nothing.
pub open spec fn decode_fixed(text: Seq<char>, n: nat) -> Option<Seq<u8>> {
    if text.len() == 2 * n && all_hex_digits(text) {
        Some(hex_bytes(text))
    } else {
        None
    }
}

/// The lowercase hexadecimal text of `bytes`: two digits for each byte, the
/// high digit first.
pub open spec fn lower_hex(bytes: Seq<u8>) -> Seq<char> {
    Seq::new(
        2 * bytes.len(),
        |i: int|
            if i % 2 == 0 {
                lower_hex_digits()[bytes[i / 2] as int / 16]
            } else {
                lower_hex_digits()[bytes[i / 2] as int % 16]
            },
    )
}

/// Each lowercase digit is a hexadecimal digit and stands for its index.
pub proof fn lemma_lower_hex_digit(v: int)
    requires
        0 <= v < 16,
    ensures
        is_hex_digit(lower_hex_digits()[v]),
        hex_digit_value(lower_hex_digits()[v]) == v,
{
}

/// Decoding the lowercase hexadecimal text of any bytes gives the bytes back.
pub proof fn lemma_decode_lower_hex(bytes: Seq<u8>)
    ensures
        decode_fixed(lower_hex(bytes), bytes.len()) == Some(bytes),
{
    let text = lower_hex(bytes);
    assert forall|i: int| 0 <= i < text.len() implies is_hex_digit(#[trigger] text[i]) by {
        let b = bytes[i / 2] as int;
        lemma_lower_hex_digit(b / 16);
        lemma_lower_hex_digit(b % 16);
    }
    assert forall|k: int| 0 <= k < bytes.len() implies #[trigger] hex_bytes(text)[k] == bytes[k] by {
        let b = bytes[k] as int;
        lemma_lower_hex_digit(b / 16);
        lemma_lower_hex_digit(b % 16);
        assert((2 * k) / 2 == k && (2 * k) % 2 == 0);
        assert((2 * k + 1) / 2 == k && (2 * k + 1) % 2 == 1);
        assert(text[2 * k] == lower_hex_digits()[b / 16]);
        assert(text[2 * k + 1] == lower_hex_digits()[b % 16]);
        assert(16 * (b / 16) + b % 16 == b);
    }
    assert(hex_bytes(text) =~= bytes);
}

/// The error with which the `hex` crate refuses a text. Nothing is read from
/// it: every refusal counts the same.
#[verifier::external_type_specification]
#[verifier::external_body]
pub struct ExFromHexError(hex::FromHexError);

/// Calls `hex::FromHex::from_hex` for an array of 32 bytes.
///
/// Not proved, taken from the source of `hex`: the call succeeds exactly on a
/// text of 64 hexadecimal digits, upper and lower case alike, and then gives
/// the bytes that the digits denote, sixteen times the first digit of a pair
/// plus the second. A text of odd length, of another length, or with any other
/// character in it is refused.
#[verifier::external_body]
pub(crate) fn decode_32(text: &str) -> (decoded: Result<[u8; 32], hex::FromHexError>)
    ensures
        match decoded {
            Ok(bytes) => decode_fixed(text@, 32) == Some(bytes@),
            Err(_) => decode_fixed(text@, 32) is None,
        },
{
    <[u8; 32] as hex::FromHex>::from_hex(text)
}

/// Calls `hex::encode`.
///
/// Not proved, taken from the source of `hex`: the result holds two lowercase
/// digits for each byte, in the order of the bytes, the digit for the high
/// four bits before the digit for the low four.
#[verifier::external_body]
pub(crate) fn encode_lower(bytes: &[u8]) -> (text: String)
    ensures
        text@ == lower_hex(bytes@),
{
    hex::encode(bytes)
}

} // verus!
