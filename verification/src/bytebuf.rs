//! The codec's fixed-capacity accumulation buffer: a `heapless::Vec` of
//! bytes, held behind trusted wrappers that state what each operation does
//! to the buffer's contents.

use vstd::prelude::*;

verus! {

/// Capacity of the accumulation buffer: one header plus one maximal payload.
pub const BUF_CAPACITY: usize = crate::packet::HEADER_LEN + crate::packet::MAX_PAYLOAD_LEN;

#[verifier::external_type_specification]
#[verifier::external_body]
#[verifier::reject_recursive_types(T)]
pub struct ExHeaplessVec<T, const N: usize>(heapless::Vec<T, N>);

/// The bytes a buffer holds, oldest first.
pub uninterp spec fn buf_bytes(v: heapless::Vec<u8, BUF_CAPACITY>) -> Seq<u8>;

/// Relies on heapless::Vec::new: a fresh vector is empty.
#[verifier::external_body]
pub(crate) fn buf_new() -> (v: heapless::Vec<u8, BUF_CAPACITY>)
    ensures
        buf_bytes(v) == Seq::<u8>::empty(),
{
    heapless::Vec::new()
}

/// Relies on heapless::Vec::push: appends the item when the vector is below
/// its capacity, and otherwise hands the item back and changes nothing.
#[verifier::external_body]
pub(crate) fn buf_push(v: &mut heapless::Vec<u8, BUF_CAPACITY>, byte: u8) -> (r: bool)
    ensures
        r == (buf_bytes(*old(v)).len() < BUF_CAPACITY),
        r ==> buf_bytes(*final(v)) == buf_bytes(*old(v)).push(byte),
        !r ==> buf_bytes(*final(v)) == buf_bytes(*old(v)),
{
    v.push(byte).is_ok()
}

/// Relies on heapless::Vec::clear: removes every element.
#[verifier::external_body]
pub(crate) fn buf_clear(v: &mut heapless::Vec<u8, BUF_CAPACITY>)
    ensures
        buf_bytes(*final(v)) == Seq::<u8>::empty(),
{
    v.clear()
}

/// Relies on heapless::Vec::as_slice: a view of the whole contents.
#[verifier::external_body]
pub(crate) fn buf_as_slice(v: &heapless::Vec<u8, BUF_CAPACITY>) -> (s: &[u8])
    ensures
        s@ == buf_bytes(*v),
{
    v.as_slice()
}

/// Relies on slice::copy_within: copies the elements from `n` onward to the
/// front; the tail beyond the copied range keeps its old values.
#[verifier::external_body]
pub(crate) fn buf_shift_left(v: &mut heapless::Vec<u8, BUF_CAPACITY>, n: usize)
    requires
        n <= buf_bytes(*old(v)).len(),
    ensures
        buf_bytes(*final(v)).len() == buf_bytes(*old(v)).len(),
        forall|i: int|
            0 <= i < buf_bytes(*old(v)).len() - n ==> buf_bytes(*final(v))[i] == buf_bytes(
                *old(v),
            )[i + n],
{
    v.as_mut_slice().copy_within(n.., 0);
}

/// Relies on heapless::Vec::truncate: keeps the first `n` elements; a request
/// beyond the current length changes nothing.
#[verifier::external_body]
pub(crate) fn buf_truncate(v: &mut heapless::Vec<u8, BUF_CAPACITY>, n: usize)
    ensures
        n <= buf_bytes(*old(v)).len() ==> buf_bytes(*final(v)) == buf_bytes(*old(v)).subrange(
            0,
            n as int,
        ),
        n > buf_bytes(*old(v)).len() ==> buf_bytes(*final(v)) == buf_bytes(*old(v)),
{
    v.truncate(n)
}

} // verus!
