//! The identity of a node that outlives a restart.

use vstd::prelude::*;

use crate::chance;
use crate::error::Error;
use crate::payload;

verus! {

/// The secret that a node's address comes from.
pub struct Identity {
    secret: [u8; 32],
    fresh: bool,
}

impl Identity {
    /// The secret.
    pub closed spec fn spec_secret(&self) -> Seq<u8> {
        self.secret@
    }

    /// Whether it is new, and so has to be stored.
    pub closed spec fn spec_fresh(&self) -> bool {
        self.fresh
    }

    /// The secret.
    pub fn secret(&self) -> (secret: [u8; 32])
        ensures
            secret@ == self.spec_secret(),
    {
        self.secret
    }

    /// Whether it is new, and so has to be stored.
    pub fn is_fresh(&self) -> (fresh: bool)
        ensures
            fresh == self.spec_fresh(),
    {
        self.fresh
    }
}

/// What a file holds, or `None` where there is no file.
pub open spec fn held(stored: Option<Vec<u8>>) -> Option<Seq<u8>> {
    match stored {
        Some(bytes) => Some(bytes@),
        None => None,
    }
}

/// What the identity file at `path` comes to, with what it holds and with `random`
/// bytes for a node that has none yet: a stored identity has to be thirty-two
/// bytes.
pub open spec fn is_identity(
    path: Seq<char>,
    stored: Option<Seq<u8>>,
    random: Seq<u8>,
    identity: Result<Identity, Error>,
) -> bool {
    match stored {
        None => identity matches Ok(identity) && identity.spec_secret() == random
            && identity.spec_fresh(),
        Some(bytes) => match identity {
            Ok(identity) => bytes.len() == 32 && identity.spec_secret() == bytes
                && !identity.spec_fresh(),
            Err(Error::InvalidIdentity { path: named, length }) => bytes.len() != 32 && named@
                == path && length == bytes.len(),
            Err(_) => false,
        },
    }
}

/// The identity for what the identity file holds, or `None` where there is no file.
pub fn load_identity(path: &str, stored: Option<Vec<u8>>) -> (identity: Result<Identity, Error>)
    ensures
        exists|random: Seq<u8>| #[trigger]
            is_identity(path@, held(stored), random, identity) && random.len() == 32,
        stored is None ==> identity is Ok && identity->Ok_0.spec_fresh()
            && identity->Ok_0.spec_secret().len() == 32,
        stored matches Some(bytes) ==> (identity is Ok <==> bytes@.len() == 32),
        stored matches Some(bytes) ==> identity is Ok ==> identity->Ok_0.spec_secret() == bytes@
            && !identity->Ok_0.spec_fresh(),
        identity matches Err(error) ==> error matches Error::InvalidIdentity { path: named, length }
            && named@ == path@ && length == stored->Some_0@.len(),
{
    choose_identity(path, stored, chance::random_bytes())
}

/// The identity for what the identity file holds, with the bytes to take where there
/// is no file.
pub fn choose_identity(path: &str, stored: Option<Vec<u8>>, random: [u8; 32]) -> (identity: Result<
    Identity,
    Error,
>)
    ensures
        is_identity(path@, held(stored), random@, identity),
        stored is None ==> identity is Ok && identity->Ok_0.spec_fresh()
            && identity->Ok_0.spec_secret() == random@,
        stored matches Some(bytes) ==> (identity is Ok <==> bytes@.len() == 32),
        stored matches Some(bytes) ==> identity is Ok ==> identity->Ok_0.spec_secret() == bytes@
            && !identity->Ok_0.spec_fresh(),
        identity matches Err(error) ==> error matches Error::InvalidIdentity { path: named, length }
            && named@ == path@ && length == stored->Some_0@.len(),
{
    match stored {
        None => Ok(Identity { secret: random, fresh: true }),
        Some(bytes) => {
            if bytes.len() == 32 {
                Ok(Identity { secret: payload::to_array(bytes.as_slice()), fresh: false })
            } else {
                Err(Error::InvalidIdentity { path: path.to_owned(), length: bytes.len() })
            }
        },
    }
}

/// A node that comes back has the identity that it stored, whatever bytes are drawn
/// this time: links that name it stay valid.
pub proof fn law_identity_survives_restart(
    path: Seq<char>,
    first_random: Seq<u8>,
    first: Identity,
    second_random: Seq<u8>,
    second: Result<Identity, Error>,
)
    requires
        is_identity(path, None, first_random, Ok(first)),
        is_identity(path, Some(first.spec_secret()), second_random, second),
    ensures
        second matches Ok(same) && same.spec_secret() == first.spec_secret() && !same.spec_fresh(),
{
}

/// A node without a stored identity gets the bytes that were drawn, and is told to store
/// them. One with a stored identity keeps it, if it is thirty-two bytes, and has nothing
/// to store. Anything else is refused with the file's path and length.
pub proof fn law_when_an_identity_is_new(
    path: Seq<char>,
    stored: Option<Seq<u8>>,
    random: Seq<u8>,
    identity: Result<Identity, Error>,
)
    requires
        is_identity(path, stored, random, identity),
    ensures
        stored is None ==> identity is Ok && identity->Ok_0.spec_secret() == random,
        identity is Ok <==> (stored matches Some(bytes) ==> bytes.len() == 32),
        identity is Ok ==> (identity->Ok_0.spec_fresh() <==> stored is None),
        identity is Ok && stored is Some ==> stored == Some(identity->Ok_0.spec_secret()),
        identity is Err ==> (identity->Err_0 matches Error::InvalidIdentity { path: named, length }
            && named@ == path && length == stored->Some_0.len()),
{
}

/// A node that stores its secret exactly when it is told to has the same secret at every
/// later start, wherever its file lies and whatever bytes are drawn.
pub proof fn law_identity_is_the_same_after_a_restart(
    first_path: Seq<char>,
    stored: Option<Seq<u8>>,
    first_random: Seq<u8>,
    first: Identity,
    second_path: Seq<char>,
    second_random: Seq<u8>,
    second: Result<Identity, Error>,
)
    requires
        first_random.len() == 32,
        is_identity(first_path, stored, first_random, Ok(first)),
        is_identity(
            second_path,
            if first.spec_fresh() {
                Some(first.spec_secret())
            } else {
                stored
            },
            second_random,
            second,
        ),
    ensures
        second is Ok,
        second->Ok_0.spec_secret() == first.spec_secret(),
        !second->Ok_0.spec_fresh(),
{
}

/// What a file holds is its bytes.
pub proof fn law_what_is_held(bytes: Vec<u8>)
    ensures
        held(Some(bytes)) == Some(bytes@),
        held(None) is None,
{
}

} // verus!
