//! Where the members of a room meet.

use vstd::prelude::*;

use super::id::{is_room_name, RoomId};
use super::key::RoomKey;
use crate::error::Error;
use crate::hexadecimal;
use crate::hexadecimal::hex_lower;
use crate::text;
use crate::text::{is_blank, trimmed};

verus! {

/// The protocol of private rooms.
pub const PRIVATE_ROOM_PROTOCOL: &'static str = "peersey/private-room/v1";

/// The protocol of public rooms.
pub const PUBLIC_ROOM_PROTOCOL: &'static str = "peersey/public-room/v1";

/// What the members of one room have in common, and nobody else: they find each
/// other by it.
pub struct Coordinates {
    passphrase: String,
    app_salt: &'static str,
}

/// What coordinates are.
pub struct CoordinatesView {
    /// What sets the room apart from others of its protocol.
    pub passphrase: Seq<char>,
    /// What sets the protocol apart from others.
    pub app_salt: Seq<char>,
}

impl View for Coordinates {
    type V = CoordinatesView;

    closed spec fn view(&self) -> CoordinatesView {
        CoordinatesView { passphrase: self.passphrase@, app_salt: self.app_salt@ }
    }
}

/// The coordinates of the private room with a key.
pub open spec fn private_coordinates(key: Seq<u8>) -> CoordinatesView {
    CoordinatesView { passphrase: hex_lower(key), app_salt: PRIVATE_ROOM_PROTOCOL@ }
}

/// The coordinates of the public room with a name.
pub open spec fn public_coordinates(name: Seq<char>) -> CoordinatesView {
    CoordinatesView { passphrase: name, app_salt: PUBLIC_ROOM_PROTOCOL@ }
}

impl Coordinates {
    /// The coordinates of the private room with a key.
    pub fn private(key: &RoomKey) -> (coordinates: Coordinates)
        ensures
            coordinates@ == private_coordinates(key@),
            coordinates@.passphrase == hex_lower(key@),
            coordinates@.app_salt == "peersey/private-room/v1"@,
    {
        Coordinates { passphrase: key.to_string(), app_salt: PRIVATE_ROOM_PROTOCOL }
    }

    /// The coordinates of the public room with a name.
    pub fn public(id: &RoomId) -> (coordinates: Coordinates)
        ensures
            coordinates@ == public_coordinates(id@),
            coordinates@.passphrase == id@,
            coordinates@.app_salt == "peersey/public-room/v1"@,
    {
        Coordinates { passphrase: id.to_string(), app_salt: PUBLIC_ROOM_PROTOCOL }
    }

    /// The coordinates of the public room that a text names; white space around the
    /// name is ignored.
    pub fn named(name: &str) -> (coordinates: Result<Coordinates, Error>)
        ensures
            match coordinates {
                Ok(coordinates) => is_room_name(trimmed(name@)) && coordinates@
                    == public_coordinates(trimmed(name@)),
                Err(error) => !is_room_name(trimmed(name@)) && error is InvalidRoomName,
            },
            coordinates is Ok <==> trimmed(name@).len() > 0 && forall|i: int|
                0 <= i < trimmed(name@).len() ==> !text::is_white_space(
                    #[trigger] trimmed(name@)[i],
                ),
            coordinates is Ok ==> coordinates->Ok_0@.passphrase == trimmed(name@),
            coordinates is Ok ==> coordinates->Ok_0@.app_salt == "peersey/public-room/v1"@,
    {
        match RoomId::from_str(name) {
            Ok(id) => Ok(Coordinates::public(&id)),
            Err(_) => Err(Error::InvalidRoomName),
        }
    }

    /// What sets the room apart from others of its protocol.
    pub fn passphrase(&self) -> (passphrase: &str)
        ensures
            passphrase@ == self@.passphrase,
    {
        self.passphrase.as_str()
    }

    /// What sets the protocol apart from others.
    pub fn app_salt(&self) -> (app_salt: &str)
        ensures
            app_salt@ == self@.app_salt,
    {
        self.app_salt
    }
}

/// Private rooms with different keys meet in different places.
pub proof fn law_keys_tell_rooms_apart(a: Seq<u8>, b: Seq<u8>)
    ensures
        private_coordinates(a) == private_coordinates(b) <==> a == b,
{
    hexadecimal::lemma_hex_round_trip(a);
    hexadecimal::lemma_hex_round_trip(b);
}

/// Public rooms with different names meet in different places.
pub proof fn law_names_tell_rooms_apart(a: Seq<char>, b: Seq<char>)
    ensures
        public_coordinates(a) == public_coordinates(b) <==> a == b,
{
}

/// A public room never meets where a private one does, not even one that is named
/// like the private room's key.
pub proof fn law_public_and_private_are_apart(name: Seq<char>, key: Seq<u8>)
    ensures
        public_coordinates(name) != private_coordinates(key),
{
    reveal_strlit("peersey/private-room/v1");
    reveal_strlit("peersey/public-room/v1");
    assert(public_coordinates(name).app_salt.len() == 22);
    assert(private_coordinates(key).app_salt.len() == 23);
}

/// A public room is the same by its identifier and by the identifier's text.
pub proof fn law_identifier_and_text_name_one_room(name: Seq<char>)
    requires
        is_room_name(name),
    ensures
        is_room_name(trimmed(name)),
        public_coordinates(trimmed(name)) == public_coordinates(name),
{
    assert(!text::is_white_space(name[0]) && !text::is_white_space(name[name.len() - 1]));
    text::lemma_trimmed_fixed(name);
}

/// White space around a name leads to the same public room.
pub proof fn law_padded_name_is_the_same_room(
    before: Seq<char>,
    name: Seq<char>,
    after: Seq<char>,
)
    requires
        is_blank(before),
        is_blank(after),
    ensures
        public_coordinates(trimmed(before + name + after)) == public_coordinates(trimmed(name)),
        is_room_name(trimmed(before + name + after)) == is_room_name(trimmed(name)),
{
    text::lemma_trimmed_ignores_padding(before, name, after);
}

/// The members of a room meet by its key or its name, whole and unchanged, under the salt
/// of their protocol.
pub proof fn law_where_rooms_meet(key: Seq<u8>, name: Seq<char>)
    ensures
        private_coordinates(key).passphrase == hex_lower(key),
        private_coordinates(key).app_salt == "peersey/private-room/v1"@,
        public_coordinates(name).passphrase == name,
        public_coordinates(name).app_salt == "peersey/public-room/v1"@,
{
}

} // verus!
