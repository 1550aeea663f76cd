//! Keys of private rooms.

use std::str::FromStr;

use vstd::prelude::*;
use vstd::utf8::encode_utf8;

use crate::chance;
use crate::hexadecimal;
use crate::hexadecimal::{hex_bytes, hex_lower, is_hex, is_hex_fault, lower_case, FromHexError};
use crate::payload;

verus! {

/// Secret 256-bit capability required to discover and join a private room.
///
/// Treat this value like a password. Anyone who has it can join the room.
#[derive(Clone, Copy, Hash)]
pub struct RoomKey([u8; 32]);

/// Secret of a gossip topic: that of the room whose messages it carries.
pub type TopicKey = RoomKey;

/// Error returned when parsing a room key.
#[derive(Debug)]
pub enum RoomKeyParseError {
    /// Input was not hexadecimal.
    InvalidHex(FromHexError),
    /// Decoded key was not 32 bytes.
    InvalidLength(usize),
}

impl View for RoomKey {
    type V = Seq<u8>;

    closed spec fn view(&self) -> Seq<u8> {
        self.0@
    }
}

/// What reading a text as a key comes to.
pub open spec fn is_parsed_key(value: Seq<char>, key: Result<RoomKey, RoomKeyParseError>) -> bool {
    let text = encode_utf8(value);
    match key {
        Ok(key) => is_hex(text) && text.len() == 64 && key@ == hex_bytes(text),
        Err(RoomKeyParseError::InvalidLength(length)) => {
            &&& is_hex(text)
            &&& text.len() != 64
            &&& 2 * length == text.len()
        },
        Err(RoomKeyParseError::InvalidHex(error)) => is_hex_fault(text, error),
    }
}

impl RoomKey {
    /// Generate a cryptographically random room key.
    pub fn random() -> (key: RoomKey)
        ensures
            key@.len() == 32,
    {
        RoomKey::from_bytes(chance::random_bytes())
    }

    /// Construct a key from its raw bytes.
    pub fn from_bytes(bytes: [u8; 32]) -> (key: RoomKey)
        ensures
            key@ == bytes@,
    {
        RoomKey(bytes)
    }

    /// Return the raw key bytes.
    pub fn to_bytes(self) -> (bytes: [u8; 32])
        ensures
            bytes@ == self@,
    {
        self.0
    }

    /// The key as text: sixty-four lower-case hexadecimal digits.
    pub fn to_string(&self) -> (value: String)
        ensures
            value@ == hex_lower(self@),
            value@.len() == 64,
            value.is_ascii(),
    {
        proof {
            hexadecimal::lemma_hex_lower_is_ascii(self@);
        }
        hexadecimal::encode(&self.0)
    }

    /// The key that a text is: sixty-four hexadecimal digits in either case.
    pub fn from_str(value: &str) -> (key: Result<RoomKey, RoomKeyParseError>)
        ensures
            is_parsed_key(value@, key),
            key is Ok <==> value@.len() == 64 && forall|i: int|
                0 <= i < 64 ==> {
                    ||| '0' <= #[trigger] value@[i] <= '9'
                    ||| 'a' <= value@[i] <= 'f'
                    ||| 'A' <= value@[i] <= 'F'
                },
    {
        proof {
            law_which_texts_are_keys(value@);
        }
        match hexadecimal::decode(value.as_bytes()) {
            Ok(bytes) => {
                if bytes.len() == 32 {
                    Ok(RoomKey(payload::to_array(bytes.as_slice())))
                } else {
                    Err(RoomKeyParseError::InvalidLength(bytes.len()))
                }
            },
            Err(error) => Err(RoomKeyParseError::InvalidHex(error)),
        }
    }

    /// How the key shows in logs: without its secret.
    pub fn debug_string(&self) -> (shown: String)
        ensures
            shown@ == "RoomKey([REDACTED])"@,
    {
        "RoomKey([REDACTED])".to_owned()
    }
}

impl FromStr for RoomKey {
    type Err = RoomKeyParseError;

    fn from_str(value: &str) -> (key: Result<RoomKey, RoomKeyParseError>)
        ensures
            is_parsed_key(value@, key),
            key is Ok <==> value@.len() == 64 && forall|i: int|
                0 <= i < 64 ==> {
                    ||| '0' <= #[trigger] value@[i] <= '9'
                    ||| 'a' <= value@[i] <= 'f'
                    ||| 'A' <= value@[i] <= 'F'
                },
    {
        RoomKey::from_str(value)
    }
}

impl PartialEq for RoomKey {
    fn eq(&self, other: &RoomKey) -> (same: bool) {
        payload::same_bytes(&self.0, &other.0)
    }
}

impl vstd::std_specs::cmp::PartialEqSpecImpl for RoomKey {
    open spec fn obeys_eq_spec() -> bool {
        true
    }

    open spec fn eq_spec(&self, other: &RoomKey) -> bool {
        self@ == other@
    }
}

impl Eq for RoomKey {

}

/// A key has thirty-two bytes.
pub proof fn law_key_length(key: RoomKey)
    ensures
        key@.len() == 32,
{
}

/// A key is read back from its text.
pub proof fn law_key_round_trip(key: RoomKey, read: Result<RoomKey, RoomKeyParseError>)
    requires
        is_parsed_key(hex_lower(key@), read),
    ensures
        read matches Ok(same) && same@ == key@,
{
    hexadecimal::lemma_hex_lower_encodes(key@);
    hexadecimal::lemma_hex_round_trip(key@);
}

/// A text that is read as a key is that key's text, but for the case of its letters.
pub proof fn law_key_text_is_normalized(value: Seq<char>, key: RoomKey)
    requires
        is_parsed_key(value, Ok(key)),
    ensures
        hex_lower(key@) == value.map_values(|c: char| lower_case(c)),
{
    hexadecimal::lemma_hex_normalized(value);
}

/// Every text of sixty-four hexadecimal digits, in either case, is a key, and no other text
/// is. The key's bytes are those that the digits stand for.
pub proof fn law_which_texts_are_keys(value: Seq<char>)
    ensures
        forall|key: Result<RoomKey, RoomKeyParseError>| #[trigger]
            is_parsed_key(value, key) ==> {
                &&& key is Ok <==> value.len() == 64 && forall|i: int|
                    0 <= i < 64 ==> {
                        ||| '0' <= #[trigger] value[i] <= '9'
                        ||| 'a' <= value[i] <= 'f'
                        ||| 'A' <= value[i] <= 'F'
                    }
                &&& key is Ok ==> key->Ok_0@ == hex_bytes(encode_utf8(value))
                &&& key matches Err(RoomKeyParseError::InvalidLength(length)) ==> {
                    &&& is_hex(encode_utf8(value))
                    &&& value.len() == 2 * length
                    &&& length != 32
                }
                &&& key matches Err(RoomKeyParseError::InvalidHex(error)) ==> is_hex_fault(
                    encode_utf8(value),
                    error,
                ) && !is_hex(encode_utf8(value))
            },
{
    hexadecimal::law_which_texts_are_hex(value);
}

/// Keys are equal if and only if their bytes are.
pub proof fn law_equal_keys_have_the_same_bytes(a: RoomKey, b: RoomKey)
    ensures
        vstd::std_specs::cmp::PartialEqSpec::eq_spec(&a, &b) <==> a@ == b@,
{
}

} // verus!
