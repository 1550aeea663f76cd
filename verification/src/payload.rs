//! Cheaply shared byte buffers.

use bytes::Bytes;
use vstd::prelude::*;

verus! {

/// Declares `bytes::Bytes`, an immutable run of bytes.
#[verifier::external_type_specification]
#[verifier::external_body]
pub struct ExBytes(bytes::Bytes);

/// The bytes that a buffer holds.
pub uninterp spec fn buffer(bytes: Bytes) -> Seq<u8>;

/// `Bytes::len` counts the bytes.
pub assume_specification[ Bytes::len ](bytes: &Bytes) -> (length: usize)
    ensures
        length == buffer(*bytes).len(),
;

/// A clone of a buffer holds the same bytes.
pub assume_specification[ <Bytes as Clone>::clone ](bytes: &Bytes) -> (copy: Bytes)
    ensures
        buffer(copy) == buffer(*bytes),
;

/// Reads a buffer as a slice, by `Bytes`'s `Deref`.
#[verifier::external_body]
pub(crate) fn as_slice(bytes: &Bytes) -> (slice: &[u8])
    ensures
        slice@ == buffer(*bytes),
{
    bytes
}

/// Calls `Bytes::from` on a vector: the buffer holds the vector's bytes.
#[verifier::external_body]
pub(crate) fn from_vec(bytes: Vec<u8>) -> (shared: Bytes)
    ensures
        buffer(shared) == bytes@,
{
    Bytes::from(bytes)
}

/// Calls `Bytes::slice` with an open end: the bytes from `start` on.
#[verifier::external_body]
pub(crate) fn slice_from(bytes: &Bytes, start: usize) -> (tail: Bytes)
    requires
        start <= buffer(*bytes).len(),
    ensures
        buffer(tail) == buffer(*bytes).skip(start as int),
{
    bytes.slice(start..)
}

/// The bytes of a slice of thirty-two, as an array.
pub(crate) fn to_array(bytes: &[u8]) -> (array: [u8; 32])
    requires
        bytes@.len() == 32,
    ensures
        array@ == bytes@,
{
    let mut array: [u8; 32] = [0;32];
    let mut i: usize = 0;
    while i < 32
        invariant
            i <= 32,
            bytes@.len() == 32,
            forall|j: int| 0 <= j < i ==> array@[j] == bytes@[j],
        decreases 32 - i,
    {
        array[i] = bytes[i];
        i += 1;
    }
    assert(array@ =~= bytes@);
    array
}

/// Tells whether two slices hold the same bytes.
pub(crate) fn same_bytes(a: &[u8], b: &[u8]) -> (same: bool)
    ensures
        same == (a@ == b@),
{
    if a.len() != b.len() {
        return false;
    }
    let mut i: usize = 0;
    while i < a.len()
        invariant
            i <= a@.len(),
            a@.len() == b@.len(),
            forall|j: int| 0 <= j < i ==> a@[j] == b@[j],
        decreases a@.len() - i,
    {
        if a[i] != b[i] {
            return false;
        }
        i += 1;
    }
    assert(a@ =~= b@);
    true
}

} // verus!
