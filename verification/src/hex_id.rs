//! User ids on the wire.
//!
//! A user id is sixteen bytes. Clients see it as thirty-two hexadecimal
//! digits, two per byte, high nibble first; the service writes them in lower
//! case and reads them in either case.

use vstd::prelude::*;

verus! {

/// Number of bytes in a user id.
pub const ID_BYTES: usize = 16;

/// Number of hexadecimal digits that spell a user id.
pub const ID_DIGITS: usize = 32;

/// Why a string is not a user id.
#[derive(Clone, Copy, Debug, PartialEq, Eq)]
pub enum IdError {
    /// The byte at `index` is not a hexadecimal digit; `c` is that byte as a character.
    InvalidHexCharacter { c: char, index: usize },
    /// The string has an odd number of bytes.
    OddLength,
    /// The string is hexadecimal throughout but does not spell sixteen bytes.
    WrongLength,
}

/// Whether `b` is one of `0-9`, `a-f`, `A-F` in ASCII.
pub open spec fn is_hex_digit(b: u8) -> bool {
    ||| 0x30 <= b <= 0x39
    ||| 0x41 <= b <= 0x46
    ||| 0x61 <= b <= 0x66
}

/// The number that the hexadecimal digit `b` stands for.
pub open spec fn digit_value(b: u8) -> int
    recommends
        is_hex_digit(b),
{
    if b <= 0x39 {
        b - 0x30
    } else if b <= 0x46 {
        b - 0x41 + 10
    } else {
        b - 0x61 + 10
    }
}

/// The lower-case hexadecimal digit for `n`.
pub open spec fn lower_digit(n: int) -> char
    recommends
        0 <= n < 16,
{
    if n < 10 {
        (0x30 + n) as char
    } else {
        (0x61 + n - 10) as char
    }
}

/// The lower-case hexadecimal spelling of `bytes`.
pub open spec fn encode(bytes: Seq<u8>) -> Seq<char> {
    Seq::new(
        2 * bytes.len(),
        |i: int|
            if i % 2 == 0 {
                lower_digit(bytes[i / 2] as int / 16)
            } else {
                lower_digit(bytes[i / 2] as int % 16)
            },
    )
}

/// Whether every byte of `digits` is a hexadecimal digit.
pub open spec fn all_hex(digits: Seq<u8>) -> bool {
    forall|i: int| 0 <= i < digits.len() ==> is_hex_digit(#[trigger] digits[i])
}

/// The bytes that `digits` spell, two digits to a byte.
pub open spec fn decode(digits: Seq<u8>) -> Seq<u8>
    recommends
        digits.len() % 2 == 0,
        all_hex(digits),
{
    Seq::new(
        digits.len() / 2,
        |i: int| (16 * digit_value(digits[2 * i]) + digit_value(digits[2 * i + 1])) as u8,
    )
}

/// Whether `index` is the place of the first byte of `digits` that is no hexadecimal digit.
pub open spec fn first_bad_digit(digits: Seq<u8>, index: int) -> bool {
    &&& 0 <= index < digits.len()
    &&& !is_hex_digit(digits[index])
    &&& forall|j: int| 0 <= j < index ==> is_hex_digit(#[trigger] digits[j])
}

/// `hex::encode`: two lower-case digits for each byte of `data`, in order, the
/// high nibble first.
#[verifier::external_body]
fn hex_encode(data: &[u8]) -> (text: String)
    ensures
        text@ == encode(data@),
{
    hex::encode(data)
}

/// `hex::decode`: the bytes that `data` spells. It refuses an odd number of
/// bytes first, and otherwise the first byte that is no hexadecimal digit,
/// which it reports with its place; it never reports a wrong length.
#[verifier::external_body]
fn hex_decode(data: &[u8]) -> (decoded: Result<Vec<u8>, IdError>)
    ensures
        match decoded {
            Ok(bytes) => data@.len() % 2 == 0 && all_hex(data@) && bytes@ == decode(data@),
            Err(IdError::OddLength) => data@.len() % 2 == 1,
            Err(IdError::InvalidHexCharacter { c, index }) => {
                &&& data@.len() % 2 == 0
                &&& first_bad_digit(data@, index as int)
                &&& c == data@[index as int] as char
            },
            Err(IdError::WrongLength) => false,
        },
{
    match hex::decode(data) {
        Ok(bytes) => Ok(bytes),
        Err(hex::FromHexError::InvalidHexCharacter { c, index }) => Err(
            IdError::InvalidHexCharacter { c, index },
        ),
        Err(hex::FromHexError::OddLength) => Err(IdError::OddLength),
        Err(hex::FromHexError::InvalidStringLength) => Err(IdError::WrongLength),
    }
}

/// Whether `c` is one of `0-9`, `a-f`, `A-F`.
pub open spec fn is_hex_char(c: char) -> bool {
    ||| '0' <= c <= '9'
    ||| 'A' <= c <= 'F'
    ||| 'a' <= c <= 'f'
}

/// Whether `c` is one of `0-9`, `a-f`.
pub open spec fn is_lower_hex_char(c: char) -> bool {
    ||| '0' <= c <= '9'
    ||| 'a' <= c <= 'f'
}

/// Whether `text` spells a user id: thirty-two hexadecimal digits and nothing else.
pub open spec fn is_id_text(text: Seq<char>) -> bool {
    &&& text.len() == ID_DIGITS
    &&& forall|i: int| 0 <= i < text.len() ==> is_hex_char(#[trigger] text[i])
}

/// The characters of `text`, each as one byte.
pub open spec fn narrow(text: Seq<char>) -> Seq<u8> {
    Seq::new(text.len(), |i: int| text[i] as u8)
}

/// The user id that `text` spells.
pub open spec fn id_of_text(text: Seq<char>) -> Seq<u8>
    recommends
        is_id_text(text),
{
    decode(narrow(text))
}

/// Whether `error` is the one that a string with the UTF-8 bytes `bytes` is
/// refused with: an odd number of bytes before anything else, then the first
/// byte that is no hexadecimal digit, then the number of bytes spelled.
pub open spec fn refused_with(bytes: Seq<u8>, error: IdError) -> bool {
    match error {
        IdError::OddLength => bytes.len() % 2 == 1,
        IdError::InvalidHexCharacter { c, index } => {
            &&& bytes.len() % 2 == 0
            &&& first_bad_digit(bytes, index as int)
            &&& c == bytes[index as int] as char
        },
        IdError::WrongLength => {
            &&& bytes.len() % 2 == 0
            &&& all_hex(bytes)
            &&& bytes.len() != ID_DIGITS
        },
    }
}

/// A character is its own code point.
proof fn lemma_char_code(c: char)
    ensures
        c as u32 as int == c as int,
{
}

/// A string is written in UTF-8 with every byte below 128 only if all its
/// characters are ASCII.
proof fn lemma_low_bytes_are_ascii(text: Seq<char>)
    requires
        forall|i: int|
            0 <= i < vstd::utf8::encode_utf8(text).len() ==> #[trigger] vstd::utf8::encode_utf8(
                text,
            )[i] < 0x80,
    ensures
        vstd::utf8::is_ascii_chars(text),
    decreases text.len(),
{
    if text.len() > 0 {
        let head = text[0] as u32;
        let first = vstd::utf8::encode_scalar(head);
        let rest = vstd::utf8::encode_utf8(text.drop_first());
        let bytes = vstd::utf8::encode_utf8(text);
        assert(bytes[0] < 0x80);
        assert(vstd::utf8::has_width_1_encoding(head)) by {
            if !vstd::utf8::has_width_1_encoding(head) {
                assert(0xC0u8 | ((head >> 6) & 0x1F) as u8 >= 0x80) by (bit_vector);
                assert(0xE0u8 | ((head >> 12) & 0x0F) as u8 >= 0x80) by (bit_vector);
                assert(0xF0u8 | ((head >> 18) & 0x7) as u8 >= 0x80) by (bit_vector);
            }
        }
        assert forall|i: int| 0 <= i < rest.len() implies #[trigger] rest[i] < 0x80 by {
            assert(bytes[first.len() + i] == rest[i]);
        }
        lemma_low_bytes_are_ascii(text.drop_first());
        assert forall|i: int| 0 <= i < text.len() implies '\0' <= #[trigger] text[i]
            <= '\u{7f}' by {
            if i > 0 {
                assert(text[i] == text.drop_first()[i - 1]);
            } else {
                lemma_char_code(text[0]);
            }
        }
    }
}

/// The UTF-8 bytes of a string are hexadecimal digits throughout exactly when
/// its characters are, and then there is one byte for each character.
pub proof fn lemma_hex_text_bytes(text: Seq<char>)
    ensures
        all_hex(vstd::utf8::encode_utf8(text)) <==> (forall|i: int|
            0 <= i < text.len() ==> is_hex_char(#[trigger] text[i])),
        all_hex(vstd::utf8::encode_utf8(text)) ==> vstd::utf8::encode_utf8(text) == narrow(text),
{
    let bytes = vstd::utf8::encode_utf8(text);
    if all_hex(bytes) {
        lemma_low_bytes_are_ascii(text);
    }
    if vstd::utf8::is_ascii_chars(text) {
        vstd::utf8::is_ascii_chars_encode_utf8(text);
        assert(forall|i: int|
            0 <= i < text.len() ==> (is_hex_char(#[trigger] text[i]) <==> is_hex_digit(bytes[i])));
    }
}

/// The spelling of any bytes is twice as long as they are and holds nothing
/// but digits and the lower-case letters `a` to `f`.
pub proof fn lemma_encode_is_lower_hex(bytes: Seq<u8>)
    ensures
        encode(bytes).len() == 2 * bytes.len(),
        forall|i: int| 0 <= i < encode(bytes).len() ==> is_lower_hex_char(#[trigger] encode(bytes)[i]),
{
}

/// Reading a spelling gives the bytes that were spelled.
pub proof fn lemma_decode_encode(bytes: Seq<u8>)
    ensures
        all_hex(narrow(encode(bytes))),
        decode(narrow(encode(bytes))) == bytes,
{
    let digits = narrow(encode(bytes));
    lemma_encode_is_lower_hex(bytes);
}

/// Sixteen bytes are spelled as a user id, and that id is read back as the
/// same sixteen bytes; no other number of bytes is spelled as a user id.
pub proof fn lemma_id_round_trip(id: Seq<u8>)
    ensures
        is_id_text(encode(id)) <==> id.len() == ID_BYTES,
        id_of_text(encode(id)) == id,
{
    lemma_encode_is_lower_hex(id);
    lemma_decode_encode(id);
}

/// Different bytes are spelled differently.
pub proof fn lemma_encode_is_injective(a: Seq<u8>, b: Seq<u8>)
    requires
        encode(a) == encode(b),
    ensures
        a == b,
{
    lemma_decode_encode(a);
    lemma_decode_encode(b);
}

/// Writes a user id in hexadecimal: two lower-case digits for each byte.
pub fn encode_id(id: &[u8]) -> (text: String)
    ensures
        text@ == encode(id@),
        is_id_text(text@) <==> id@.len() == ID_BYTES,
{
    proof {
        lemma_id_round_trip(id@);
    }
    hex_encode(id)
}

/// Reads a user id from its hexadecimal spelling.
///
/// The string is a user id exactly when it is thirty-two hexadecimal digits,
/// in either case; the result is then the sixteen bytes that they spell.
/// Anything else is refused, and the error says why.
pub fn decode_id(text: &str) -> (id: Result<Vec<u8>, IdError>)
    ensures
        id is Ok <==> is_id_text(text@),
        match id {
            Ok(bytes) => bytes@ == id_of_text(text@) && bytes@.len() == ID_BYTES,
            Err(error) => refused_with(vstd::utf8::encode_utf8(text@), error),
        },
{
    proof {
        lemma_hex_text_bytes(text@);
    }
    match hex_decode(text.as_bytes()) {
        Ok(bytes) => {
            if bytes.len() == ID_BYTES {
                Ok(bytes)
            } else {
                Err(IdError::WrongLength)
            }
        },
        Err(error) => Err(error),
    }
}

} // verus!
