//! The byte containers of the `bytes` crate, as far as the buffers use them.
//!
//! Nothing in this module is proved. Each function below makes one call into
//! `bytes`, and its contract is what the rest of the crate takes on trust
//! about that call.
//!
//! A `BytesMut` never grows here: `bytes` panics on a write that does not
//! fit instead of reallocating. So every write demands that its bytes fit,
//! and leaves the capacity as it was. How much room a `BytesMut` is made
//! with is the business of whoever makes it, and no contract speaks of it.

use bytes::{BufMut, Bytes, BytesMut};
use vstd::prelude::*;

use crate::endian::{
    u16_be_bytes, u16_le_bytes, u32_be_bytes, u32_le_bytes, u64_be_bytes, u64_le_bytes,
};

verus! {

/// `bytes::Bytes`, opaque: a handle to bytes that no longer change.
#[verifier::external_type_specification]
#[verifier::external_body]
pub struct ExBytes(bytes::Bytes);

/// `bytes::BytesMut`, opaque: a buffer of fixed capacity that bytes can be
/// appended to.
#[verifier::external_type_specification]
#[verifier::external_body]
pub struct ExBytesMut(bytes::BytesMut);

/// The bytes that a `Bytes` handle refers to, in order.
pub uninterp spec fn bytes_contents(b: Bytes) -> Seq<u8>;

/// The bytes written to a `BytesMut` so far, in order.
pub uninterp spec fn bytes_mut_contents(b: BytesMut) -> Seq<u8>;

/// The number of bytes that a `BytesMut` has room for, those already
/// written included.
pub uninterp spec fn bytes_mut_capacity(b: BytesMut) -> nat;

/// `Bytes::len`: the number of bytes the handle refers to.
#[verifier::external_body]
pub(crate) fn frozen_len(b: &Bytes) -> (n: usize)
    ensures
        n == bytes_contents(*b).len(),
{
    b.len()
}

/// `Bytes::is_empty`: whether the handle refers to no bytes at all.
#[verifier::external_body]
pub(crate) fn frozen_is_empty(b: &Bytes) -> (empty: bool)
    ensures
        empty == (bytes_contents(*b).len() == 0),
{
    b.is_empty()
}

/// `AsRef<[u8]>::as_ref` of `Bytes`: a slice over exactly the bytes the
/// handle refers to.
#[verifier::external_body]
pub(crate) fn frozen_slice(b: &Bytes) -> (s: &[u8])
    ensures
        s@ == bytes_contents(*b),
{
    b.as_ref()
}

/// `BytesMut::len`: the number of bytes written so far. It never exceeds
/// the capacity.
#[verifier::external_body]
pub(crate) fn slab_len(b: &BytesMut) -> (n: usize)
    ensures
        n == bytes_mut_contents(*b).len(),
        n <= bytes_mut_capacity(*b),
{
    b.len()
}

/// `BytesMut::capacity`: the number of bytes the buffer has room for.
#[verifier::external_body]
pub(crate) fn slab_capacity(b: &BytesMut) -> (n: usize)
    ensures
        n == bytes_mut_capacity(*b),
{
    b.capacity()
}

/// `BufMut::put_slice` of `BytesMut`: appends `src`. It panics when `src`
/// does not fit, which the precondition rules out.
#[verifier::external_body]
pub(crate) fn slab_put_slice(b: &mut BytesMut, src: &[u8])
    requires
        bytes_mut_contents(*old(b)).len() + src@.len() <= bytes_mut_capacity(*old(b)),
    ensures
        bytes_mut_contents(*final(b)) == bytes_mut_contents(*old(b)) + src@,
        bytes_mut_capacity(*final(b)) == bytes_mut_capacity(*old(b)),
{
    b.put_slice(src)
}

/// `BufMut::put_u8` of `BytesMut`: appends the byte `n`. It panics when the
/// buffer is full, which the precondition rules out.
#[verifier::external_body]
pub(crate) fn slab_put_u8(b: &mut BytesMut, n: u8)
    requires
        bytes_mut_contents(*old(b)).len() + 1 <= bytes_mut_capacity(*old(b)),
    ensures
        bytes_mut_contents(*final(b)) == bytes_mut_contents(*old(b)).push(n),
        bytes_mut_capacity(*final(b)) == bytes_mut_capacity(*old(b)),
{
    b.put_u8(n)
}

/// `BufMut::put_u16_le` of `BytesMut`: appends the two bytes of `n`, least
/// significant first. It panics when they do not fit, which the
/// precondition rules out.
#[verifier::external_body]
pub(crate) fn slab_put_u16_le(b: &mut BytesMut, n: u16)
    requires
        bytes_mut_contents(*old(b)).len() + 2 <= bytes_mut_capacity(*old(b)),
    ensures
        bytes_mut_contents(*final(b)) == bytes_mut_contents(*old(b)) + u16_le_bytes(n),
        bytes_mut_capacity(*final(b)) == bytes_mut_capacity(*old(b)),
{
    b.put_u16_le(n)
}

/// `BufMut::put_u16_be` of `BytesMut`: appends the two bytes of `n`, most
/// significant first. It panics when they do not fit, which the
/// precondition rules out.
#[verifier::external_body]
pub(crate) fn slab_put_u16_be(b: &mut BytesMut, n: u16)
    requires
        bytes_mut_contents(*old(b)).len() + 2 <= bytes_mut_capacity(*old(b)),
    ensures
        bytes_mut_contents(*final(b)) == bytes_mut_contents(*old(b)) + u16_be_bytes(n),
        bytes_mut_capacity(*final(b)) == bytes_mut_capacity(*old(b)),
{
    b.put_u16_be(n)
}

/// `BufMut::put_u32_le` of `BytesMut`: appends the four bytes of `n`, least
/// significant first. It panics when they do not fit, which the
/// precondition rules out.
#[verifier::external_body]
pub(crate) fn slab_put_u32_le(b: &mut BytesMut, n: u32)
    requires
        bytes_mut_contents(*old(b)).len() + 4 <= bytes_mut_capacity(*old(b)),
    ensures
        bytes_mut_contents(*final(b)) == bytes_mut_contents(*old(b)) + u32_le_bytes(n),
        bytes_mut_capacity(*final(b)) == bytes_mut_capacity(*old(b)),
{
    b.put_u32_le(n)
}

/// `BufMut::put_u32_be` of `BytesMut`: appends the four bytes of `n`, most
/// significant first. It panics when they do not fit, which the
/// precondition rules out.
#[verifier::external_body]
pub(crate) fn slab_put_u32_be(b: &mut BytesMut, n: u32)
    requires
        bytes_mut_contents(*old(b)).len() + 4 <= bytes_mut_capacity(*old(b)),
    ensures
        bytes_mut_contents(*final(b)) == bytes_mut_contents(*old(b)) + u32_be_bytes(n),
        bytes_mut_capacity(*final(b)) == bytes_mut_capacity(*old(b)),
{
    b.put_u32_be(n)
}

/// `BufMut::put_u64_le` of `BytesMut`: appends the eight bytes of `n`,
/// least significant first. It panics when they do not fit, which the
/// precondition rules out.
#[verifier::external_body]
pub(crate) fn slab_put_u64_le(b: &mut BytesMut, n: u64)
    requires
        bytes_mut_contents(*old(b)).len() + 8 <= bytes_mut_capacity(*old(b)),
    ensures
        bytes_mut_contents(*final(b)) == bytes_mut_contents(*old(b)) + u64_le_bytes(n),
        bytes_mut_capacity(*final(b)) == bytes_mut_capacity(*old(b)),
{
    b.put_u64_le(n)
}

/// `BufMut::put_u64_be` of `BytesMut`: appends the eight bytes of `n`, most
/// significant first. It panics when they do not fit, which the
/// precondition rules out.
#[verifier::external_body]
pub(crate) fn slab_put_u64_be(b: &mut BytesMut, n: u64)
    requires
        bytes_mut_contents(*old(b)).len() + 8 <= bytes_mut_capacity(*old(b)),
    ensures
        bytes_mut_contents(*final(b)) == bytes_mut_contents(*old(b)) + u64_be_bytes(n),
        bytes_mut_capacity(*final(b)) == bytes_mut_capacity(*old(b)),
{
    b.put_u64_be(n)
}

/// `BytesMut::freeze`: the same bytes behind a handle that can no longer
/// be written through.
#[verifier::external_body]
pub(crate) fn slab_freeze(b: BytesMut) -> (frozen: Bytes)
    ensures
        bytes_contents(frozen) == bytes_mut_contents(b),
{
    b.freeze()
}

} // verus!
