//! Text encodings: case mapping, hexadecimal, percent-encoding, UTF-8 and
//! bech32.
//!
//! The executable functions here call into `std`, `hex`,
//! `percent-encoding-rfc3986` and `bech32`. Their contracts are not proved:
//! each one restates what the called function is documented to do.

use vstd::prelude::*;
use vstd::utf8::*;

verus! {

/// The lower-case mapping of `text`, as Unicode defines it.
pub uninterp spec fn lowercase_of(text: Seq<char>) -> Seq<char>;

/// The human-readable part (in lower case) and the payload of a bech32 or
/// bech32m string, when `text` is one with a valid checksum.
pub uninterp spec fn bech32_decoded(text: Seq<char>) -> Option<(Seq<char>, Seq<u8>)>;

/// The value of a hexadecimal digit of either case.
pub open spec fn hex_digit_value(c: char) -> Option<u8> {
    if '0' <= c && c <= '9' {
        Some(((c as u8) - 48) as u8)
    } else if 'a' <= c && c <= 'f' {
        Some(((c as u8) - 87) as u8)
    } else if 'A' <= c && c <= 'F' {
        Some(((c as u8) - 55) as u8)
    } else {
        None
    }
}

/// `text` is an even number of hexadecimal digits.
pub open spec fn is_hex_text(text: Seq<char>) -> bool {
    &&& text.len() % 2 == 0
    &&& forall|i: int| 0 <= i < text.len() ==> (#[trigger] hex_digit_value(text[i])) is Some
}

/// The bytes that the digit pairs of `text` stand for.
pub open spec fn hex_bytes(text: Seq<char>) -> Seq<u8> {
    Seq::new(
        text.len() / 2,
        |i: int|
            (hex_digit_value(text[2 * i]).unwrap() * 16 + hex_digit_value(
                text[2 * i + 1],
            ).unwrap()) as u8,
    )
}

/// The lower-case hexadecimal digit for a value below sixteen.
pub open spec fn lower_hex_digit(v: int) -> char {
    if v < 10 {
        ((48 + v) as u8) as char
    } else {
        ((87 + v) as u8) as char
    }
}

/// Two lower-case hexadecimal digits for each byte.
pub open spec fn hex_text(bytes: Seq<u8>) -> Seq<char> {
    Seq::new(
        2 * bytes.len(),
        |i: int|
            if i % 2 == 0 {
                lower_hex_digit(bytes[i / 2] as int / 16)
            } else {
                lower_hex_digit(bytes[i / 2] as int % 16)
            },
    )
}

/// The value of a hexadecimal digit given as a byte.
pub open spec fn hex_byte_value(b: u8) -> Option<u8> {
    if b < 128 {
        hex_digit_value(b as char)
    } else {
        None
    }
}

/// `bytes` with every `%` and the two hexadecimal digits after it replaced
/// by the byte they stand for; `None` where a `%` is not followed by two
/// hexadecimal digits.
pub open spec fn percent_decoded_bytes(bytes: Seq<u8>) -> Option<Seq<u8>>
    decreases bytes.len(),
{
    if bytes.len() == 0 {
        Some(Seq::empty())
    } else if bytes[0] != 0x25 {
        match percent_decoded_bytes(bytes.skip(1)) {
            Some(rest) => Some(seq![bytes[0]] + rest),
            None => None,
        }
    } else if bytes.len() >= 3 && hex_byte_value(bytes[1]) is Some && hex_byte_value(
        bytes[2],
    ) is Some {
        match percent_decoded_bytes(bytes.skip(3)) {
            Some(rest) => Some(
                seq![(hex_byte_value(bytes[1]).unwrap() * 16 + hex_byte_value(
                    bytes[2],
                ).unwrap()) as u8] + rest,
            ),
            None => None,
        }
    } else {
        None
    }
}

/// The text that `text` percent-decodes to: its UTF-8 bytes are
/// percent-decoded and the result is read as UTF-8 again. `None` where
/// either step fails.
pub open spec fn percent_decoded(text: Seq<char>) -> Option<Seq<char>> {
    match percent_decoded_bytes(encode_utf8(text)) {
        Some(bytes) => if valid_utf8(bytes) {
            Some(decode_utf8(bytes))
        } else {
            None
        },
        None => None,
    }
}

/// The text that `bytes` encode in UTF-8, if they encode any.
pub open spec fn utf8_decoded(bytes: Seq<u8>) -> Option<Seq<char>> {
    if valid_utf8(bytes) {
        Some(decode_utf8(bytes))
    } else {
        None
    }
}

/// Calls `str::to_lowercase`. The result is given the name `lowercase_of`;
/// nothing else is claimed of it.
#[verifier::external_body]
pub(crate) fn to_lowercase(text: &str) -> (r: String)
    ensures
        r@ == lowercase_of(text@),
{
    text.to_lowercase()
}

/// Calls `hex::decode`, which accepts an even number of hexadecimal digits
/// of either case and returns the byte for each pair, and fails on anything
/// else.
#[verifier::external_body]
pub(crate) fn hex_decode(text: &str) -> (r: Option<Vec<u8>>)
    ensures
        r is Some <==> is_hex_text(text@),
        r is Some ==> r.unwrap()@ == hex_bytes(text@),
{
    hex::decode(text).ok()
}

/// Calls `hex::encode`, which writes each byte as two lower-case hexadecimal
/// digits.
#[verifier::external_body]
pub(crate) fn hex_encode(bytes: &[u8]) -> (r: String)
    ensures
        r@ == hex_text(bytes@),
{
    hex::encode(bytes)
}

/// Calls `percent_encoding_rfc3986::percent_decode_str` and then
/// `PercentDecode::decode_utf8`. The first fails where a `%` is not followed
/// by two hexadecimal digits, the second where the decoded bytes are not
/// UTF-8.
#[verifier::external_body]
pub(crate) fn percent_decode(text: &str) -> (r: Option<String>)
    ensures
        r is Some <==> percent_decoded(text@) is Some,
        r is Some ==> r.unwrap()@ == percent_decoded(text@).unwrap(),
{
    let decoded = percent_encoding_rfc3986::percent_decode_str(text).ok()?;
    Some(decoded.decode_utf8().ok()?.to_string())
}

/// Calls `String::from_utf8`, which succeeds exactly on well-formed UTF-8 and
/// then returns the text that the bytes encode.
#[verifier::external_body]
pub(crate) fn utf8_decode(bytes: Vec<u8>) -> (r: Option<String>)
    ensures
        r is Some <==> utf8_decoded(bytes@) is Some,
        r is Some ==> r.unwrap()@ == utf8_decoded(bytes@).unwrap(),
{
    String::from_utf8(bytes).ok()
}

/// Calls `bech32::decode` and `Hrp::to_lowercase`. The result is given the
/// name `bech32_decoded`; nothing else is claimed of it.
#[verifier::external_body]
pub(crate) fn bech32_decode(text: &str) -> (r: Option<(String, Vec<u8>)>)
    ensures
        r is Some <==> bech32_decoded(text@) is Some,
        r is Some ==> (r.unwrap().0@, r.unwrap().1@) == bech32_decoded(text@).unwrap(),
{
    let (hrp, data) = bech32::decode(text).ok()?;
    Some((hrp.to_lowercase(), data))
}

} // verus!
