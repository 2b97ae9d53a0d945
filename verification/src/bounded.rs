//! Fixed-capacity byte buffers of the `heapless` crate, as the vault uses them:
//! encrypted packets of at most 128 bytes and file paths of at most 64 bytes.
//!
//! Each buffer's contents are named by an uninterpreted function; the wrappers
//! below state, over that name, what `heapless::Vec` does to them.
use vstd::prelude::*;

verus! {

/// Capacity of a packet buffer in bytes.
pub const PACKET_CAPACITY: usize = 128;

/// Capacity of a path buffer in bytes.
pub const PATH_CAPACITY: usize = 64;

/// `heapless::Vec`, a vector with a fixed capacity, made known to Verus as an
/// opaque type.
#[verifier::external_type_specification]
#[verifier::external_body]
#[verifier::reject_recursive_types(T)]
pub struct ExHeaplessVec<T, const N: usize>(heapless::Vec<T, N>);

/// The bytes held by a packet buffer, in order.
pub uninterp spec fn packet_bytes(v: heapless::Vec<u8, 128>) -> Seq<u8>;

/// The bytes held by a path buffer, in order.
pub uninterp spec fn path_bytes(v: heapless::Vec<u8, 64>) -> Seq<u8>;

/// `heapless::Vec::<u8, 128>::new`: a buffer that holds nothing.
#[verifier::external_body]
pub(crate) fn packet_new() -> (v: heapless::Vec<u8, 128>)
    ensures
        packet_bytes(v) == Seq::<u8>::empty(),
{
    heapless::Vec::new()
}

/// `heapless::Vec::<u8, 128>::extend_from_slice`: appends `other` when the result
/// fits in the capacity, and otherwise fails and leaves the buffer as it was.
/// The length check adds the two lengths, so their sum must fit in a `usize`.
#[verifier::external_body]
pub(crate) fn packet_extend(v: &mut heapless::Vec<u8, 128>, other: &[u8]) -> (r: Result<(), ()>)
    requires
        packet_bytes(*old(v)).len() + other@.len() <= usize::MAX,
    ensures
        r is Ok <==> packet_bytes(*old(v)).len() + other@.len() <= 128,
        r is Ok ==> packet_bytes(*final(v)) == packet_bytes(*old(v)) + other@,
        r is Err ==> packet_bytes(*final(v)) == packet_bytes(*old(v)),
{
    v.extend_from_slice(other)
}

/// `heapless::Vec::<u8, 128>::as_slice`: the held bytes, never more than the capacity.
#[verifier::external_body]
pub(crate) fn packet_as_slice(v: &heapless::Vec<u8, 128>) -> (s: &[u8])
    ensures
        s@ == packet_bytes(*v),
        s@.len() <= 128,
{
    v.as_slice()
}

/// `heapless::Vec::<u8, 64>::new`: a buffer that holds nothing.
#[verifier::external_body]
pub(crate) fn path_new() -> (v: heapless::Vec<u8, 64>)
    ensures
        path_bytes(v) == Seq::<u8>::empty(),
{
    heapless::Vec::new()
}

/// `heapless::Vec::<u8, 64>::extend_from_slice`: appends `other` when the result
/// fits in the capacity, and otherwise fails and leaves the buffer as it was.
/// The length check adds the two lengths, so their sum must fit in a `usize`.
#[verifier::external_body]
pub(crate) fn path_extend(v: &mut heapless::Vec<u8, 64>, other: &[u8]) -> (r: Result<(), ()>)
    requires
        path_bytes(*old(v)).len() + other@.len() <= usize::MAX,
    ensures
        r is Ok <==> path_bytes(*old(v)).len() + other@.len() <= 64,
        r is Ok ==> path_bytes(*final(v)) == path_bytes(*old(v)) + other@,
        r is Err ==> path_bytes(*final(v)) == path_bytes(*old(v)),
{
    v.extend_from_slice(other)
}

/// `heapless::Vec::<u8, 64>::as_slice`: the held bytes, never more than the capacity.
#[verifier::external_body]
pub(crate) fn path_as_slice(v: &heapless::Vec<u8, 64>) -> (s: &[u8])
    ensures
        s@ == path_bytes(*v),
        s@.len() <= 64,
{
    v.as_slice()
}

} // verus!
