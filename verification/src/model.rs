//! What a write buffer stands for, and the laws of appending to it.

use vstd::prelude::*;

verus! {

/// The state of a write buffer, as its contracts see it.
///
/// The region behind the buffer is `meta` followed by `written`. The
/// storage engine put `meta` there before it handed the buffer out; the
/// holder of the buffer appended `written`, and may bring it up to
/// `capacity` bytes.
pub struct WriteBufView {
    /// The table that the region is destined for.
    pub table: u64,
    /// The bytes the storage engine wrote ahead of the holder's.
    pub meta: Seq<u8>,
    /// The bytes the holder of the buffer appended, in order.
    pub written: Seq<u8>,
    /// The number of bytes the holder may append in all.
    pub capacity: nat,
}

impl WriteBufView {
    /// The state of a buffer just made for `table` over a region that
    /// holds `region` and has room for `room` bytes.
    pub open spec fn fresh(table: u64, region: Seq<u8>, room: nat) -> WriteBufView {
        WriteBufView {
            table,
            meta: region,
            written: Seq::empty(),
            capacity: (room - region.len()) as nat,
        }
    }

    /// No more was appended than there is room for.
    pub open spec fn wf(self) -> bool {
        self.written.len() <= self.capacity
    }

    /// Whether `data` still fits behind what was appended so far.
    pub open spec fn fits(self, data: Seq<u8>) -> bool {
        self.written.len() + data.len() <= self.capacity
    }

    /// The state after `data` was appended.
    pub open spec fn append(self, data: Seq<u8>) -> WriteBufView {
        WriteBufView { written: self.written + data, ..self }
    }

    /// The whole region: what the storage engine gets back.
    pub open spec fn region(self) -> Seq<u8> {
        self.meta + self.written
    }
}

/// A fresh buffer holds nothing of the holder's, leaves the holder all the
/// room that the region's first bytes do not take, and its region is the
/// one it was made over.
pub proof fn lemma_fresh(table: u64, region: Seq<u8>, room: nat)
    requires
        region.len() <= room,
    ensures
        WriteBufView::fresh(table, region, room).wf(),
        WriteBufView::fresh(table, region, room).table == table,
        WriteBufView::fresh(table, region, room).written.len() == 0,
        WriteBufView::fresh(table, region, room).capacity == room - region.len(),
        WriteBufView::fresh(table, region, room).region() == region,
{
    assert(region + Seq::<u8>::empty() =~= region);
}

/// Appending `data` makes the buffer longer by the length of `data`. The
/// new bytes are `data`, in order, right behind the bytes appended before,
/// which stay as they were; so do the engine's bytes, the table and the
/// capacity.
pub proof fn lemma_append(v: WriteBufView, data: Seq<u8>)
    requires
        v.wf(),
        v.fits(data),
    ensures
        v.append(data).wf(),
        v.append(data).written.len() == v.written.len() + data.len(),
        v.append(data).written.take(v.written.len() as int) == v.written,
        v.append(data).written.skip(v.written.len() as int) == data,
        v.append(data).meta == v.meta,
        v.append(data).table == v.table,
        v.append(data).capacity == v.capacity,
{
    let after = v.append(data);
    assert(after.written.take(v.written.len() as int) =~= v.written);
    assert(after.written.skip(v.written.len() as int) =~= data);
}

/// Appending no bytes changes nothing.
pub proof fn lemma_append_nothing(v: WriteBufView)
    ensures
        v.append(Seq::empty()) == v,
{
    assert(v.written + Seq::<u8>::empty() =~= v.written);
}

/// Two appends in a row are one append of both pieces, first piece first.
pub proof fn lemma_append_twice(v: WriteBufView, first: Seq<u8>, second: Seq<u8>)
    ensures
        v.append(first).append(second) == v.append(first + second),
{
    assert((v.written + first) + second =~= v.written + (first + second));
}

/// The region grows at its end by exactly what is appended: it is always
/// the engine's bytes followed by everything appended, in the order of
/// the appends.
pub proof fn lemma_region_append(v: WriteBufView, data: Seq<u8>)
    ensures
        v.append(data).region() == v.region() + data,
{
    assert(v.meta + (v.written + data) =~= (v.meta + v.written) + data);
}

} // verus!
