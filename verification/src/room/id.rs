//! Names of public rooms.

use std::str::FromStr;

use vstd::prelude::*;

use crate::chance;
use crate::hexadecimal;
use crate::hexadecimal::hex_lower;
use crate::text;
use crate::text::{is_blank, is_white_space, trimmed};

verus! {

/// Public name of an open room. Anyone who knows it can join.
pub struct RoomId {
    name: String,
}

/// Error returned when parsing a public room name.
#[derive(Debug, Clone, Copy, PartialEq, Eq, Structural)]
pub enum RoomIdParseError {
    /// Nothing but white space.
    Empty,
    /// White space inside the name.
    InvalidCharacter {
        /// The first character that is not accepted.
        character: char,
        /// Its place among the name's characters.
        index: usize,
    },
}

/// Whether a text can name a public room: not empty, and no white space in it.
pub open spec fn is_room_name(name: Seq<char>) -> bool {
    &&& name.len() > 0
    &&& forall|i: int| 0 <= i < name.len() ==> !is_white_space(#[trigger] name[i])
}

/// What reading a text as a public room name comes to; white space around the name
/// is ignored.
pub open spec fn is_parsed_id(value: Seq<char>, id: Result<RoomId, RoomIdParseError>) -> bool {
    let name = trimmed(value);
    match id {
        Ok(id) => is_room_name(name) && id@ == name,
        Err(RoomIdParseError::Empty) => name.len() == 0,
        Err(RoomIdParseError::InvalidCharacter { character, index }) => {
            &&& index < name.len()
            &&& character == name[index as int]
            &&& is_white_space(character)
            &&& forall|i: int| 0 <= i < index ==> !is_white_space(#[trigger] name[i])
        },
    }
}

impl View for RoomId {
    type V = Seq<char>;

    closed spec fn view(&self) -> Seq<char> {
        self.name@
    }
}

impl RoomId {
    #[verifier::type_invariant]
    spec fn well_formed(self) -> bool {
        is_room_name(self.name@)
    }

    /// A new public name that nobody else is likely to have.
    pub fn random() -> (id: RoomId)
        ensures
            exists|bytes: Seq<u8>| bytes.len() == 32 && id@ == #[trigger] hex_lower(bytes),
    {
        RoomId::from_bytes(chance::random_bytes())
    }

    /// The public name that spells these bytes: sixty-four hexadecimal digits.
    pub fn from_bytes(bytes: [u8; 32]) -> (id: RoomId)
        ensures
            id@ == hex_lower(bytes@),
            is_room_name(id@),
    {
        let name: String = hexadecimal::encode(&bytes);
        proof {
            assert forall|i: int| 0 <= i < name@.len() implies !is_white_space(
                #[trigger] name@[i],
            ) by {
                let _ = bytes@[i / 2];
            }
        }
        RoomId { name }
    }

    /// The name.
    pub fn to_string(&self) -> (value: String)
        ensures
            value@ == self@,
            is_room_name(value@),
    {
        proof {
            use_type_invariant(self);
        }
        self.name.clone()
    }

    /// The public room name that a text is; white space around it is ignored.
    pub fn from_str(value: &str) -> (id: Result<RoomId, RoomIdParseError>)
        ensures
            is_parsed_id(value@, id),
            id is Ok <==> trimmed(value@).len() > 0 && forall|i: int|
                0 <= i < trimmed(value@).len() ==> !is_white_space(#[trigger] trimmed(value@)[i]),
            id is Ok ==> id->Ok_0@ == trimmed(value@),
            id matches Err(error) ==> (error is Empty <==> trimmed(value@).len() == 0),
    {
        proof {
            law_which_texts_name_a_room(value@);
        }
        let name: &str = value.trim();
        if name.is_empty() {
            return Err(RoomIdParseError::Empty);
        }
        let length: usize = name.unicode_len();
        let mut index: usize = 0;
        while index < length
            invariant
                length == name@.len(),
                index <= length,
                name@ == trimmed(value@),
                forall|i: int| 0 <= i < index ==> !is_white_space(#[trigger] name@[i]),
            decreases length - index,
        {
            let character: char = name.get_char(index);
            if text::white_space(character) {
                return Err(RoomIdParseError::InvalidCharacter { character, index });
            }
            index += 1;
        }
        Ok(RoomId { name: name.to_owned() })
    }
}

impl FromStr for RoomId {
    type Err = RoomIdParseError;

    fn from_str(value: &str) -> (id: Result<RoomId, RoomIdParseError>)
        ensures
            is_parsed_id(value@, id),
            id is Ok <==> trimmed(value@).len() > 0 && forall|i: int|
                0 <= i < trimmed(value@).len() ==> !is_white_space(#[trigger] trimmed(value@)[i]),
            id is Ok ==> id->Ok_0@ == trimmed(value@),
            id matches Err(error) ==> (error is Empty <==> trimmed(value@).len() == 0),
    {
        RoomId::from_str(value)
    }
}

impl Clone for RoomId {
    fn clone(&self) -> (copy: RoomId)
        ensures
            copy@ == self@,
    {
        proof {
            use_type_invariant(self);
        }
        RoomId { name: self.name.clone() }
    }
}

impl PartialEq for RoomId {
    fn eq(&self, other: &RoomId) -> (same: bool) {
        self.name == other.name
    }
}

impl vstd::std_specs::cmp::PartialEqSpecImpl for RoomId {
    open spec fn obeys_eq_spec() -> bool {
        true
    }

    open spec fn eq_spec(&self, other: &RoomId) -> bool {
        self@ == other@
    }
}

impl Eq for RoomId {

}

/// A public room name is read back from its text.
pub proof fn law_id_round_trip(name: Seq<char>, read: Result<RoomId, RoomIdParseError>)
    requires
        is_room_name(name),
        is_parsed_id(name, read),
    ensures
        read matches Ok(id) && id@ == name,
{
    assert(!is_white_space(name[0]) && !is_white_space(name[name.len() - 1]));
    text::lemma_trimmed_fixed(name);
}

/// Names that spell different bytes are different.
pub proof fn law_names_tell_bytes_apart(a: Seq<u8>, b: Seq<u8>)
    ensures
        hex_lower(a) == hex_lower(b) <==> a == b,
{
    hexadecimal::lemma_hex_round_trip(a);
    hexadecimal::lemma_hex_round_trip(b);
}

/// White space around a public room name makes no difference.
pub proof fn law_id_ignores_padding(
    before: Seq<char>,
    value: Seq<char>,
    after: Seq<char>,
    id: Result<RoomId, RoomIdParseError>,
)
    requires
        is_blank(before),
        is_blank(after),
    ensures
        is_parsed_id(before + value + after, id) == is_parsed_id(value, id),
{
    text::lemma_trimmed_ignores_padding(before, value, after);
}

/// Every text names a room that holds a character and, white space around it aside, no
/// white space, however long it is; and no other text does. A text is refused as empty if
/// and only if nothing is left of it, and else for its first white space.
pub proof fn law_which_texts_name_a_room(value: Seq<char>)
    ensures
        is_room_name(value) <==> value.len() > 0 && forall|i: int|
            0 <= i < value.len() ==> !is_white_space(#[trigger] value[i]),
        forall|id: Result<RoomId, RoomIdParseError>| #[trigger]
            is_parsed_id(value, id) ==> {
                &&& id is Ok <==> trimmed(value).len() > 0 && forall|i: int|
                    0 <= i < trimmed(value).len() ==> !is_white_space(#[trigger] trimmed(value)[i])
                &&& id is Ok ==> id->Ok_0@ == trimmed(value)
                &&& id is Err ==> (id->Err_0 is Empty <==> trimmed(value).len() == 0)
                &&& id matches Err(RoomIdParseError::InvalidCharacter { character, index }) ==> {
                    &&& index < trimmed(value).len()
                    &&& trimmed(value)[index as int] == character
                    &&& is_white_space(character)
                    &&& forall|i: int|
                        0 <= i < index ==> !is_white_space(#[trigger] trimmed(value)[i])
                }
            },
{
}

/// Names are equal if and only if they are the same text.
pub proof fn law_equal_names_are_one_text(a: RoomId, b: RoomId)
    ensures
        vstd::std_specs::cmp::PartialEqSpec::eq_spec(&a, &b) <==> a@ == b@,
{
}

} // verus!
