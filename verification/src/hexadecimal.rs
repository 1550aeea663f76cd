//! Hexadecimal text.

use vstd::prelude::*;
use vstd::utf8::*;

verus! {

/// Why a text is not hexadecimal.
#[derive(Debug, Clone, Copy, PartialEq, Eq, Structural)]
pub enum FromHexError {
    /// A character other than `0`-`9`, `a`-`f` and `A`-`F`.
    InvalidHexCharacter {
        /// The offending byte of the text, as a character.
        c: char,
        /// Its position in the text, in bytes.
        index: usize,
    },
    /// An odd number of digits.
    OddLength,
    /// A length other than that of a fixed-size target.
    InvalidStringLength,
}

/// The lower-case digit for a value below sixteen.
pub open spec fn lower_digit(value: int) -> char {
    if value < 10 {
        (0x30 + value) as char
    } else {
        (0x61 + value - 10) as char
    }
}

/// The bytes in lower-case hexadecimal, high digit first.
pub open spec fn hex_lower(bytes: Seq<u8>) -> Seq<char> {
    Seq::new(
        2 * bytes.len(),
        |i: int|
            lower_digit(
                if i % 2 == 0 {
                    bytes[i / 2] as int / 16
                } else {
                    bytes[i / 2] as int % 16
                },
            ),
    )
}

/// Whether a byte of text is a hexadecimal digit, in either case.
pub open spec fn is_digit(byte: u8) -> bool {
    ||| 0x30 <= byte <= 0x39
    ||| 0x41 <= byte <= 0x46
    ||| 0x61 <= byte <= 0x66
}

/// The value of a hexadecimal digit.
pub open spec fn digit_value(byte: u8) -> int {
    if byte <= 0x39 {
        byte - 0x30
    } else if byte <= 0x46 {
        byte - 0x41 + 10
    } else {
        byte - 0x61 + 10
    }
}

/// Whether a text, given by its bytes, is an even number of hexadecimal digits.
pub open spec fn is_hex(text: Seq<u8>) -> bool {
    &&& text.len() % 2 == 0
    &&& forall|i: int| 0 <= i < text.len() ==> is_digit(#[trigger] text[i])
}

/// The bytes that a hexadecimal text stands for.
pub open spec fn hex_bytes(text: Seq<u8>) -> Seq<u8> {
    Seq::new(
        text.len() / 2,
        |i: int| (16 * digit_value(text[2 * i]) + digit_value(text[2 * i + 1])) as u8,
    )
}

/// Whether `error` is what is wrong with `text`: an odd length comes before
/// everything else, then the first byte that is no digit.
pub open spec fn is_hex_fault(text: Seq<u8>, error: FromHexError) -> bool {
    match error {
        FromHexError::OddLength => text.len() % 2 != 0,
        FromHexError::InvalidHexCharacter { c, index } => {
            &&& text.len() % 2 == 0
            &&& index < text.len()
            &&& !is_digit(text[index as int])
            &&& c as u32 == text[index as int]
            &&& forall|i: int| 0 <= i < index ==> is_digit(#[trigger] text[i])
        },
        FromHexError::InvalidStringLength => false,
    }
}

/// Calls `hex::encode`: two lower-case digits for each byte.
#[verifier::external_body]
pub(crate) fn encode(bytes: &[u8]) -> (text: String)
    ensures
        text@ == hex_lower(bytes@),
{
    hex::encode(bytes)
}

/// Calls `hex::decode`: the bytes that an even number of digits in either case
/// stand for, or the first thing wrong with the text.
#[verifier::external_body]
pub(crate) fn decode(text: &[u8]) -> (bytes: Result<Vec<u8>, FromHexError>)
    ensures
        match bytes {
            Ok(bytes) => is_hex(text@) && bytes@ == hex_bytes(text@),
            Err(error) => is_hex_fault(text@, error),
        },
{
    hex::decode(text).map_err(
        |error|
            match error {
                hex::FromHexError::InvalidHexCharacter { c, index } =>
                    FromHexError::InvalidHexCharacter { c, index },
                hex::FromHexError::OddLength => FromHexError::OddLength,
                hex::FromHexError::InvalidStringLength => FromHexError::InvalidStringLength,
            },
    )
}

/// A character with the letters `A` to `Z` in lower case.
pub open spec fn lower_case(c: char) -> char {
    if 0x41 <= c as u32 <= 0x5a {
        (c as u32 + 0x20) as char
    } else {
        c
    }
}

/// A character that takes one byte is ASCII.
proof fn lemma_width_1_is_ascii(c: char)
    requires
        has_width_1_encoding(c as u32),
    ensures
        '\0' <= c <= '\u{7f}',
{
}

/// Text whose encoding has no byte from 128 up is ASCII.
proof fn lemma_ascii_from_bytes(text: Seq<char>)
    requires
        forall|i: int| 0 <= i < encode_utf8(text).len() ==> #[trigger] encode_utf8(text)[i] < 0x80,
    ensures
        is_ascii_chars(text),
    decreases text.len(),
{
    if text.len() > 0 {
        let first = text[0] as u32;
        let head = encode_scalar(first);
        let rest = text.drop_first();
        assert(is_scalar(first)) by {
            char_is_scalar(text[0]);
        }
        assert(encode_utf8(text) =~= head + encode_utf8(rest));
        assert(encode_utf8(text)[0] == head[0]);
        assert(has_width_1_encoding(first)) by {
            assert(leading_byte_width_2(first) >= 0x80) by (bit_vector);
            assert(leading_byte_width_3(first) >= 0x80) by (bit_vector);
            assert(leading_byte_width_4(first) >= 0x80) by (bit_vector);
        }
        assert forall|i: int| 0 <= i < encode_utf8(rest).len() implies #[trigger] encode_utf8(
            rest,
        )[i] < 0x80 by {
            assert(encode_utf8(text)[i + head.len()] == encode_utf8(rest)[i]);
        }
        lemma_ascii_from_bytes(rest);
        assert forall|i: int| 0 <= i < text.len() implies '\0' <= #[trigger] text[i] <= '\u{7f}' by {
            if i > 0 {
                assert('\0' <= rest[i - 1] <= '\u{7f}');
            } else {
                lemma_width_1_is_ascii(text[0]);
            }
        }
    }
}

/// Hexadecimal text is one digit to a character.
pub proof fn lemma_hex_text(text: Seq<char>)
    requires
        is_hex(encode_utf8(text)),
    ensures
        text.len() == encode_utf8(text).len(),
        forall|i: int| 0 <= i < text.len() ==> #[trigger] text[i] as u32 == encode_utf8(text)[i],
{
    lemma_ascii_from_bytes(text);
    is_ascii_chars_encode_utf8(text);
}

/// Lower-case hexadecimal text is ASCII.
pub proof fn lemma_hex_lower_is_ascii(bytes: Seq<u8>)
    ensures
        is_ascii_chars(hex_lower(bytes)),
{
    let text = hex_lower(bytes);
    assert forall|i: int| 0 <= i < text.len() implies '\0' <= #[trigger] text[i] <= '\u{7f}' by {
        let _ = bytes[i / 2];
    }
}

/// The encoding of lower-case hexadecimal text is hexadecimal.
pub proof fn lemma_hex_lower_encodes(bytes: Seq<u8>)
    ensures
        encode_utf8(hex_lower(bytes)).len() == 2 * bytes.len(),
        is_hex(encode_utf8(hex_lower(bytes))),
        forall|i: int|
            0 <= i < 2 * bytes.len() ==> #[trigger] encode_utf8(hex_lower(bytes))[i]
                == hex_lower(bytes)[i] as u32,
{
    let text = hex_lower(bytes);
    lemma_hex_lower_is_ascii(bytes);
    is_ascii_chars_encode_utf8(text);
    assert forall|i: int| 0 <= i < text.len() implies is_digit(#[trigger] encode_utf8(text)[i]) by {
        let _ = bytes[i / 2];
        assert(text[i] as u8 == encode_utf8(text)[i]);
    }
}

/// Decoding gives back what was encoded.
pub proof fn lemma_hex_round_trip(bytes: Seq<u8>)
    ensures
        is_hex(encode_utf8(hex_lower(bytes))),
        hex_bytes(encode_utf8(hex_lower(bytes))) == bytes,
{
    let text = hex_lower(bytes);
    let encoded = encode_utf8(text);
    lemma_hex_lower_encodes(bytes);
    assert forall|i: int| 0 <= i < bytes.len() implies hex_bytes(encoded)[i] == bytes[i] by {
        let high = 2 * i;
        let low = 2 * i + 1;
        assert(high / 2 == i && high % 2 == 0 && low / 2 == i && low % 2 == 1);
        assert(encoded[high] == text[high] as u32);
        assert(encoded[low] == text[low] as u32);
        assert(digit_value(encoded[high]) == bytes[i] as int / 16);
        assert(digit_value(encoded[low]) == bytes[i] as int % 16);
    }
    assert(hex_bytes(encoded) =~= bytes);
}

/// Encoding what was decoded gives the text back in lower case.
pub proof fn lemma_hex_normalized(text: Seq<char>)
    requires
        is_hex(encode_utf8(text)),
    ensures
        hex_lower(hex_bytes(encode_utf8(text))) == text.map_values(|c: char| lower_case(c)),
{
    let encoded = encode_utf8(text);
    let bytes = hex_bytes(encoded);
    lemma_hex_text(text);
    assert forall|i: int| 0 <= i < text.len() implies hex_lower(bytes)[i] == lower_case(text[i]) by {
        let pair = i / 2;
        assert(is_digit(encoded[2 * pair]));
        assert(is_digit(encoded[2 * pair + 1]));
        assert(text[i] as u32 == encoded[i]);
        assert(i == 2 * pair || i == 2 * pair + 1);
        let high = digit_value(encoded[2 * pair]);
        let low = digit_value(encoded[2 * pair + 1]);
        assert(bytes[pair] as int / 16 == high && bytes[pair] as int % 16 == low);
    }
    assert(hex_lower(bytes) =~= text.map_values(|c: char| lower_case(c)));
}

/// A byte is written as two digits, the high one first, in lower case.
pub proof fn law_hex_text_of_bytes(bytes: Seq<u8>, i: int)
    requires
        0 <= i < bytes.len(),
    ensures
        hex_lower(bytes).len() == 2 * bytes.len(),
        hex_lower(bytes)[2 * i] as u32 == bytes[i] / 16 + (if bytes[i] / 16 < 10 {
            48int
        } else {
            87int
        }),
        hex_lower(bytes)[2 * i + 1] as u32 == bytes[i] % 16 + (if bytes[i] % 16 < 10 {
            48int
        } else {
            87int
        }),
{
    assert((2 * i) / 2 == i && (2 * i) % 2 == 0 && (2 * i + 1) / 2 == i && (2 * i + 1) % 2 == 1);
}

/// A text is hexadecimal if and only if it is an even number of digits, each `0` to `9`,
/// `a` to `f` or `A` to `F`.
pub proof fn law_which_texts_are_hex(text: Seq<char>)
    ensures
        is_hex(encode_utf8(text)) <==> text.len() % 2 == 0 && forall|i: int|
            0 <= i < text.len() ==> {
                ||| '0' <= #[trigger] text[i] <= '9'
                ||| 'a' <= text[i] <= 'f'
                ||| 'A' <= text[i] <= 'F'
            },
        is_hex(encode_utf8(text)) ==> encode_utf8(text).len() == text.len(),
{
    let encoded = encode_utf8(text);
    if is_hex(encoded) {
        lemma_hex_text(text);
        assert forall|i: int| 0 <= i < text.len() implies {
            ||| '0' <= #[trigger] text[i] <= '9'
            ||| 'a' <= text[i] <= 'f'
            ||| 'A' <= text[i] <= 'F'
        } by {
            assert(is_digit(encoded[i]));
            lemma_digit_char(text[i], encoded[i]);
        }
    }
    if text.len() % 2 == 0 && (forall|i: int|
        0 <= i < text.len() ==> {
            ||| '0' <= #[trigger] text[i] <= '9'
            ||| 'a' <= text[i] <= 'f'
            ||| 'A' <= text[i] <= 'F'
        }) {
        assert(is_ascii_chars(text)) by {
            assert forall|i: int| 0 <= i < text.len() implies '\0' <= #[trigger] text[i]
                <= '\u{7f}' by {
                lemma_digit_is_ascii(text[i]);
            }
        }
        is_ascii_chars_encode_utf8(text);
        assert forall|i: int| 0 <= i < encoded.len() implies is_digit(#[trigger] encoded[i]) by {
            assert(text[i] as u8 == encoded[i]);
            lemma_digit_is_ascii(text[i]);
            lemma_digit_char(text[i], encoded[i]);
        }
    }
}

/// The digits as characters and as bytes.
proof fn lemma_digit_char(c: char, byte: u8)
    requires
        c as u32 == byte,
    ensures
        ('0' <= c <= '9' || 'a' <= c <= 'f' || 'A' <= c <= 'F') <==> is_digit(byte),
{
}

/// The digits are ASCII.
proof fn lemma_digit_is_ascii(c: char)
    requires
        '0' <= c <= '9' || 'a' <= c <= 'f' || 'A' <= c <= 'F',
    ensures
        '\0' <= c <= '\u{7f}',
        c as u32 == c as u8,
{
}

/// Two digits stand for sixteen times the first and the second, whatever their case.
pub proof fn law_bytes_of_hex_text(text: Seq<u8>, i: int, high: int, low: int)
    requires
        is_hex(text),
        0 <= i < text.len() / 2,
        0 <= high < 16,
        0 <= low < 16,
        text[2 * i] == high + (if high < 10 {
            48int
        } else {
            87int
        }) || text[2 * i] == high + (if high < 10 {
            48int
        } else {
            55int
        }),
        text[2 * i + 1] == low + (if low < 10 {
            48int
        } else {
            87int
        }) || text[2 * i + 1] == low + (if low < 10 {
            48int
        } else {
            55int
        }),
    ensures
        hex_bytes(text).len() == text.len() / 2,
        hex_bytes(text)[i] == 16 * high + low,
{
}

/// What is wrong with a text that is not hexadecimal: an odd number of bytes, or else the
/// first byte that is no digit, with its place.
pub proof fn law_what_is_wrong_with_a_text(text: Seq<u8>, error: FromHexError)
    requires
        is_hex_fault(text, error),
    ensures
        !is_hex(text),
        error is OddLength <==> text.len() % 2 == 1,
        error matches FromHexError::InvalidHexCharacter { c, index } ==> {
            &&& index < text.len()
            &&& c as u32 == text[index as int]
            &&& is_hex(text.take(index - index % 2))
            &&& !(48 <= text[index as int] <= 57 || 97 <= text[index as int] <= 102 || 65
                <= text[index as int] <= 70)
            &&& forall|i: int|
                0 <= i < index ==> 48 <= #[trigger] text[i] <= 57 || 97 <= text[i] <= 102 || 65
                    <= text[i] <= 70
        },
        !(error is InvalidStringLength),
{
}

} // verus!
