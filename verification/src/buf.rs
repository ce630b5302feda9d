//! The two buffer types handed to an extension.
//!
//! Neither type can be cloned, and neither gives out the container it
//! wraps: an extension can read a [`ReadBuf`] and append to a [`WriteBuf`],
//! and nothing else.
//!
//! A [`WriteBuf`] does not grow. Whoever appends to it has to know that
//! the bytes fit, which `len` and `capacity` tell; every append demands it.
//! Outside verified code an append that does not fit panics, which ends
//! the invocation of the extension that made it.

use bytes::{Bytes, BytesMut};
use vstd::prelude::*;

use crate::endian::{u16_bytes, u32_bytes, u64_bytes};
use crate::model::{lemma_append_nothing, WriteBufView};
use crate::region::{
    bytes_contents, bytes_mut_capacity, bytes_mut_contents, frozen_is_empty, frozen_len,
    frozen_slice, slab_capacity, slab_freeze, slab_len, slab_put_slice, slab_put_u16_be,
    slab_put_u16_le, slab_put_u32_be, slab_put_u32_le, slab_put_u64_be, slab_put_u64_le,
    slab_put_u8,
};

verus! {

/// A read-only buffer over a record fetched by the storage engine.
pub struct ReadBuf {
    inner: Bytes,
}

impl View for ReadBuf {
    type V = Seq<u8>;

    /// The bytes of the record.
    closed spec fn view(&self) -> Seq<u8> {
        bytes_contents(self.inner)
    }
}

impl ReadBuf {
    /// The buffer that `new` makes over `buffer`.
    pub closed spec fn spec_new(buffer: Bytes) -> ReadBuf {
        ReadBuf { inner: buffer }
    }

    /// The number of bytes in the record.
    pub open spec fn spec_len(&self) -> nat {
        self@.len()
    }

    /// Whether the record has no bytes.
    pub open spec fn spec_is_empty(&self) -> bool {
        self@.len() == 0
    }

    /// A buffer made over a region mirrors it: it reads as the bytes of the
    /// region, it is as long as the region, and it is empty exactly when
    /// the region is.
    pub proof fn lemma_new_mirrors(region: Bytes)
        ensures
            ReadBuf::spec_new(region)@ == bytes_contents(region),
            ReadBuf::spec_new(region).spec_len() == bytes_contents(region).len(),
            ReadBuf::spec_new(region).spec_is_empty() == (bytes_contents(region).len() == 0),
    {
    }

    /// Wraps `buffer` without copying it. Only the storage engine is meant
    /// to call this, when it hands a fetched record to an extension.
    pub fn new(buffer: Bytes) -> (buf: ReadBuf)
        ensures
            buf == ReadBuf::spec_new(buffer),
            buf@ == bytes_contents(buffer),
    {
        ReadBuf { inner: buffer }
    }

    /// The number of bytes in the record.
    pub fn len(&self) -> (n: usize)
        ensures
            n == self.spec_len(),
    {
        frozen_len(&self.inner)
    }

    /// Whether the record has no bytes, which is to say that its length is
    /// zero.
    pub fn is_empty(&self) -> (empty: bool)
        ensures
            empty == self.spec_is_empty(),
            empty == (self.spec_len() == 0),
    {
        frozen_is_empty(&self.inner)
    }

    /// The whole record.
    pub fn read(&self) -> (data: &[u8])
        ensures
            data@ == self@,
    {
        frozen_slice(&self.inner)
    }
}

/// An append-only buffer over a slab allocated by the storage engine.
///
/// The slab may start with bytes of the engine's own. The buffer remembers
/// how many there are and keeps them out of sight: its length and its
/// capacity count the holder's bytes only.
pub struct WriteBuf {
    // The table that the slab will be written to.
    table: u64,
    // The slab: the engine's bytes, then the holder's.
    inner: BytesMut,
    // The number of bytes the engine had written when the buffer was made.
    meta_len: usize,
}

impl View for WriteBuf {
    type V = WriteBufView;

    closed spec fn view(&self) -> WriteBufView {
        let all = bytes_mut_contents(self.inner);
        WriteBufView {
            table: self.table,
            meta: all.take(self.meta_len as int),
            written: all.skip(self.meta_len as int),
            capacity: (bytes_mut_capacity(self.inner) - self.meta_len) as nat,
        }
    }
}

impl WriteBuf {
    /// What holds of every buffer that `new` made, whatever was appended
    /// since: the engine's bytes are among those in the slab, and the slab
    /// holds no more than it has room for.
    pub closed spec fn inv(&self) -> bool {
        self.meta_len <= bytes_mut_contents(self.inner).len() <= bytes_mut_capacity(self.inner)
    }

    /// A buffer never holds more of the holder's bytes than its capacity.
    pub proof fn lemma_within_capacity(&self)
        requires
            self.inv(),
        ensures
            self@.wf(),
    {
    }

    /// If the slab of `after` is that of `before` with `bytes` behind it,
    /// and nothing else differs, then `after` is `before` with `bytes`
    /// appended.
    proof fn lemma_slab_grown(before: WriteBuf, after: WriteBuf, bytes: Seq<u8>)
        requires
            before.inv(),
            before@.fits(bytes),
            after.table == before.table,
            after.meta_len == before.meta_len,
            bytes_mut_contents(after.inner) == bytes_mut_contents(before.inner) + bytes,
            bytes_mut_capacity(after.inner) == bytes_mut_capacity(before.inner),
        ensures
            after.inv(),
            after@ == before@.append(bytes),
    {
        let all = bytes_mut_contents(before.inner);
        let m = before.meta_len as int;
        assert((all + bytes).take(m) =~= all.take(m));
        assert((all + bytes).skip(m) =~= all.skip(m) + bytes);
    }

    /// Wraps `buffer`, a slab allocated for `table`. The bytes that
    /// `buffer` holds already are taken to be the engine's: the new buffer
    /// has length zero, and its capacity is the room that they leave in
    /// `buffer`. Only the storage engine is meant to call this, when it
    /// hands an allocation to an extension.
    pub fn new(table: u64, buffer: BytesMut) -> (buf: WriteBuf)
        ensures
            buf.inv(),
            buf@ == WriteBufView::fresh(
                table,
                bytes_mut_contents(buffer),
                bytes_mut_capacity(buffer),
            ),
            buf@.written.len() == 0,
            buf@.capacity == bytes_mut_capacity(buffer) - bytes_mut_contents(buffer).len(),
    {
        let init_len = slab_len(&buffer);
        let buf = WriteBuf { table: table, inner: buffer, meta_len: init_len };
        proof {
            let all = bytes_mut_contents(buffer);
            assert(all.take(init_len as int) =~= all);
            assert(all.skip(init_len as int) =~= Seq::<u8>::empty());
        }
        buf
    }

    /// The number of bytes appended so far. The engine's bytes do not
    /// count.
    pub fn len(&self) -> (n: usize)
        requires
            self.inv(),
        ensures
            n == self@.written.len(),
    {
        slab_len(&self.inner) - self.meta_len
    }

    /// The number of bytes that can be appended in all, those appended
    /// already included. The engine's bytes do not count.
    pub fn capacity(&self) -> (n: usize)
        requires
            self.inv(),
        ensures
            n == self@.capacity,
    {
        slab_capacity(&self.inner) - self.meta_len
    }

    /// Appends `data`, which has to fit. Appending no bytes changes
    /// nothing.
    pub fn write_slice(&mut self, data: &[u8])
        requires
            old(self).inv(),
            old(self)@.fits(data@),
        ensures
            final(self).inv(),
            final(self)@ == old(self)@.append(data@),
            data@.len() == 0 ==> final(self)@ == old(self)@,
    {
        let ghost before = *self;
        slab_put_slice(&mut self.inner, data);
        proof {
            Self::lemma_slab_grown(before, *self, data@);
            if data@.len() == 0 {
                assert(data@ =~= Seq::<u8>::empty());
                lemma_append_nothing(before@);
            }
        }
    }

    /// Appends the byte `data`, which has to fit.
    pub fn write_u8(&mut self, data: u8)
        requires
            old(self).inv(),
            old(self)@.fits(seq![data]),
        ensures
            final(self).inv(),
            final(self)@ == old(self)@.append(seq![data]),
    {
        let ghost before = *self;
        slab_put_u8(&mut self.inner, data);
        proof {
            assert(bytes_mut_contents(before.inner).push(data) =~= bytes_mut_contents(
                before.inner,
            ) + seq![data]);
            Self::lemma_slab_grown(before, *self, seq![data]);
        }
    }

    /// Appends the two bytes of `data`, which have to fit, in the byte
    /// order that `le` asks for: little-endian if it is true, big-endian if
    /// not.
    pub fn write_u16(&mut self, data: u16, le: bool)
        requires
            old(self).inv(),
            old(self)@.fits(u16_bytes(data, le)),
        ensures
            final(self).inv(),
            final(self)@ == old(self)@.append(u16_bytes(data, le)),
    {
        let ghost before = *self;
        match le {
            true => {
                slab_put_u16_le(&mut self.inner, data);
            },
            false => {
                slab_put_u16_be(&mut self.inner, data);
            },
        }
        proof {
            Self::lemma_slab_grown(before, *self, u16_bytes(data, le));
        }
    }

    /// Appends the four bytes of `data`, which have to fit, in the byte
    /// order that `le` asks for: little-endian if it is true, big-endian if
    /// not.
    pub fn write_u32(&mut self, data: u32, le: bool)
        requires
            old(self).inv(),
            old(self)@.fits(u32_bytes(data, le)),
        ensures
            final(self).inv(),
            final(self)@ == old(self)@.append(u32_bytes(data, le)),
    {
        let ghost before = *self;
        match le {
            true => {
                slab_put_u32_le(&mut self.inner, data);
            },
            false => {
                slab_put_u32_be(&mut self.inner, data);
            },
        }
        proof {
            Self::lemma_slab_grown(before, *self, u32_bytes(data, le));
        }
    }

    /// Appends the eight bytes of `data`, which have to fit, in the byte
    /// order that `le` asks for: little-endian if it is true, big-endian if
    /// not.
    pub fn write_u64(&mut self, data: u64, le: bool)
        requires
            old(self).inv(),
            old(self)@.fits(u64_bytes(data, le)),
        ensures
            final(self).inv(),
            final(self)@ == old(self)@.append(u64_bytes(data, le)),
    {
        let ghost before = *self;
        match le {
            true => {
                slab_put_u64_le(&mut self.inner, data);
            },
            false => {
                slab_put_u64_be(&mut self.inner, data);
            },
        }
        proof {
            Self::lemma_slab_grown(before, *self, u64_bytes(data, le));
        }
    }

    /// Gives the buffer up. What comes back is the table it was made for
    /// and the whole slab, frozen: the engine's bytes, then every byte
    /// appended, in the order of the appends. Only the storage engine is
    /// meant to call this, once the extension has returned.
    pub fn freeze(self) -> (out: (u64, Bytes))
        requires
            self.inv(),
        ensures
            out.0 == self@.table,
            bytes_contents(out.1) == self@.region(),
    {
        proof {
            let all = bytes_mut_contents(self.inner);
            assert(all.take(self.meta_len as int) + all.skip(self.meta_len as int) =~= all);
        }
        (self.table, slab_freeze(self.inner))
    }
}

} // verus!
