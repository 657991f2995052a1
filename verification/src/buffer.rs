//! The fixed-capacity byte buffer of the `heapless` crate, as far as this
//! crate uses it.
//!
//! Verus does not look into `heapless`.  What is said here of its vector is
//! taken from its source and is believed, not proved.

use vstd::prelude::*;

verus! {

/// The number of bytes that an image buffer can hold.
pub const BUFFER_CAPACITY: usize = 1024;

/// `heapless::Vec`, a vector that lives in an array of `N` elements.
#[verifier::external_type_specification]
#[verifier::external_body]
#[verifier::reject_recursive_types(T)]
pub struct ExHeaplessVec<T, const N: usize>(heapless::Vec<T, N>);

/// The bytes that an image buffer holds, in the order in which they were
/// appended.
pub uninterp spec fn buffer_bytes(buf: heapless::Vec<u8, 1024>) -> Seq<u8>;

/// `heapless::Vec::new`: a buffer that holds nothing.
#[verifier::external_body]
pub(crate) fn buffer_new() -> (buf: heapless::Vec<u8, 1024>)
    ensures
        buffer_bytes(buf) == Seq::<u8>::empty(),
{
    heapless::Vec::new()
}

/// `heapless::Vec::capacity`: the number of elements that the buffer's type
/// gives it room for.
#[verifier::external_body]
pub(crate) fn buffer_capacity(buf: &heapless::Vec<u8, 1024>) -> (capacity: usize)
    ensures
        capacity == BUFFER_CAPACITY,
{
    buf.capacity()
}

/// `heapless::Vec::as_slice`: the bytes that the buffer holds.
#[verifier::external_body]
pub(crate) fn buffer_as_slice(buf: &heapless::Vec<u8, 1024>) -> (bytes: &[u8])
    ensures
        bytes@ == buffer_bytes(*buf),
{
    buf.as_slice()
}

/// `heapless::Vec::extend_from_slice`: appends all of `more` where the
/// buffer has room for it, and else fails and leaves the buffer as it was.
/// It does not panic in either case.
#[verifier::external_body]
pub(crate) fn buffer_extend(buf: &mut heapless::Vec<u8, 1024>, more: &[u8]) -> (r: Result<(), ()>)
    ensures
        r is Ok <==> buffer_bytes(*old(buf)).len() + more@.len() <= BUFFER_CAPACITY,
        r is Ok ==> buffer_bytes(*final(buf)) == buffer_bytes(*old(buf)) + more@,
        r is Err ==> buffer_bytes(*final(buf)) == buffer_bytes(*old(buf)),
    no_unwind
{
    buf.extend_from_slice(more)
}

} // verus!
