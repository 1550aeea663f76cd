//! Random bytes.

use vstd::prelude::*;

verus! {

/// Calls `rand::random` for thirty-two bytes. Which bytes come is chance, so
/// nothing is said of them.
#[verifier::external_body]
pub(crate) fn random_bytes() -> [u8; 32] {
    rand::random()
}

} // verus!
