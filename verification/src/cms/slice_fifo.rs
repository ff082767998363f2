//! A FIFO CMS region held in memory.
//!
//! The region keeps a ring buffer of its own, a read position and a fill
//! count. Read-only FIFOs (log and vendor read-only regions) refuse pushes,
//! write-only FIFOs (code and vendor write-only regions) refuse pops, and the
//! FIFO hands bytes out in the order they were pushed.
//!
//! The write index never catches up with the read index from behind: a push
//! that would make it equal fails, so a ring of `n` bytes holds at most
//! `n - 1` and equal indices always mean empty.

use vstd::prelude::*;

use crate::bits::{bit_of_u8, lemma_with_bit_u8, put_bit_u8};
use crate::error::{CmsError, OcpError};
use crate::protocol::indirect_fifo_status::{FifoCmsRegionType, FifoStatusFlags, IndirectFifoStatus};

verus! {

/// An offset `x < 2 * n` folded back into a ring of `n` slots.
pub open spec fn wrap(x: int, n: int) -> int {
    if x < n {
        x
    } else {
        x - n
    }
}

/// The slot `q` places after `read` in a ring of `len` slots.
fn ring_pos(read: usize, q: usize, len: usize) -> (r: usize)
    requires
        read < len,
        q <= len,
    ensures
        r == wrap(read + q, len as int),
        r < len,
{
    if q >= len - read {
        q - (len - read)
    } else {
        read + q
    }
}

/// A FIFO CMS region backed by a ring buffer held in memory.
#[derive(Debug)]
pub struct SliceFifoRegion {
    data: Vec<u8>,
    region_type: FifoCmsRegionType,
    max_transfer_size_4b: u32,
    read: usize,
    count: usize,
}

impl SliceFifoRegion {
    /// The ring is non-empty, a multiple of 4 bytes and addressable with 32
    /// bits; the read position lies inside it and one slot stays free.
    pub closed spec fn wf(self) -> bool {
        &&& 0 < self.data@.len() <= u32::MAX
        &&& self.data@.len() % 4 == 0
        &&& self.read < self.data@.len()
        &&& self.count < self.data@.len()
    }

    /// The bytes waiting in the FIFO, oldest first.
    pub closed spec fn spec_contents(self) -> Seq<u8> {
        Seq::new(
            self.count as nat,
            |i: int| self.data@[wrap(self.read + i, self.data@.len() as int)],
        )
    }

    /// The size of the ring in bytes; it holds one byte less.
    pub closed spec fn spec_capacity(self) -> nat {
        self.data@.len()
    }

    /// The region type.
    pub closed spec fn spec_region_type(self) -> FifoCmsRegionType {
        self.region_type
    }

    /// The max transfer size, in 4-byte units.
    pub closed spec fn spec_max_transfer_size_4b(self) -> u32 {
        self.max_transfer_size_4b
    }

    /// The read index reported in INDIRECT_FIFO_STATUS, in 4-byte units.
    pub closed spec fn spec_read_index(self) -> u32 {
        (self.read / 4) as u32
    }

    /// The write index reported in INDIRECT_FIFO_STATUS, in 4-byte units.
    pub closed spec fn spec_write_index(self) -> u32 {
        (wrap(self.read + self.count, self.data@.len() as int) / 4) as u32
    }

    /// Create an empty FIFO whose ring is as long as `buf`.
    ///
    /// Returns `InvalidCmsBufferSize` exactly when `buf` is empty, not a
    /// multiple of 4 bytes long, or longer than a 32-bit size can express.
    pub fn new(buf: &[u8], region_type: FifoCmsRegionType, max_transfer_size_4b: u32) -> (r:
        Result<Self, OcpError>)
        ensures
            (buf@.len() == 0 || buf@.len() % 4 != 0 || buf@.len() > u32::MAX) ==> r == Err::<
                Self,
                OcpError,
            >(OcpError::InvalidCmsBufferSize),
            !(buf@.len() == 0 || buf@.len() % 4 != 0 || buf@.len() > u32::MAX) ==> (r matches Ok(
                s,
            ) && s.wf() && s.spec_contents().len() == 0 && s.spec_capacity() == buf@.len()
                && s.spec_region_type() == region_type && s.spec_max_transfer_size_4b()
                == max_transfer_size_4b),
    {
        if buf.len() == 0 || buf.len() % 4 != 0 || buf.len() > u32::MAX as usize {
            return Err(OcpError::InvalidCmsBufferSize);
        }
        let data = vstd::slice::slice_to_vec(buf);
        Ok(Self { data, region_type, max_transfer_size_4b, read: 0, count: 0 })
    }

    /// The current INDIRECT_FIFO_STATUS for this region.
    pub fn status(&self) -> (r: IndirectFifoStatus)
        requires
            self.wf(),
        ensures
            bit_of_u8(r.spec_flags().0, 0) == (self.spec_contents().len() == 0),
            bit_of_u8(r.spec_flags().0, 1) == (self.spec_contents().len() + 1 == self.spec_capacity()),
            r.spec_region_type() == self.spec_region_type(),
            r.spec_write_index() == self.spec_write_index(),
            r.spec_read_index() == self.spec_read_index(),
            r.spec_fifo_size() == self.spec_capacity() / 4,
            r.spec_max_transfer_size() == self.spec_max_transfer_size_4b(),
    {
        let len = self.data.len();
        let empty = self.count == 0;
        let full = self.count == len - 1;
        let flags0 = put_bit_u8(0, 0, empty);
        let flags = put_bit_u8(flags0, 1, full);
        proof {
            lemma_with_bit_u8(0, 0, 0, empty);
            lemma_with_bit_u8(flags0, 1, 0, full);
            lemma_with_bit_u8(flags0, 1, 1, full);
        }
        let end = ring_pos(self.read, self.count, len);
        IndirectFifoStatus::new(
            FifoStatusFlags(flags),
            self.region_type,
            (end / 4) as u32,
            (self.read / 4) as u32,
            (len / 4) as u32,
            self.max_transfer_size_4b,
        )
    }

    /// Push `src` into the FIFO.
    ///
    /// A read-only FIFO returns `ReadOnly`; one where pushing all of `src`
    /// would bring the write index round to the read index returns
    /// `FifoFull`; both leave the FIFO unchanged. Otherwise `src` is appended
    /// after the bytes already waiting.
    pub fn push(&mut self, src: &[u8]) -> (r: Result<(), CmsError>)
        requires
            old(self).wf(),
        ensures
            final(self).wf(),
            final(self).spec_capacity() == old(self).spec_capacity(),
            final(self).spec_region_type() == old(self).spec_region_type(),
            final(self).spec_max_transfer_size_4b() == old(self).spec_max_transfer_size_4b(),
            !old(self).spec_region_type().spec_writable() ==> r == Err::<(), CmsError>(
                CmsError::ReadOnly,
            ) && final(self).spec_contents() == old(self).spec_contents(),
            old(self).spec_region_type().spec_writable() && old(self).spec_contents().len()
                + src@.len() >= old(self).spec_capacity() ==> r == Err::<(), CmsError>(
                CmsError::FifoFull,
            ) && final(self).spec_contents() == old(self).spec_contents(),
            old(self).spec_region_type().spec_writable() && old(self).spec_contents().len()
                + src@.len() < old(self).spec_capacity() ==> r == Ok::<(), CmsError>(())
                && final(self).spec_contents() == old(self).spec_contents() + src@,
    {
        if !self.region_type.is_writable() {
            return Err(CmsError::ReadOnly);
        }
        let len = self.data.len();
        if src.len() >= len - self.count {
            return Err(CmsError::FifoFull);
        }
        let ghost old_contents = self.spec_contents();
        let ghost orig = self.data@;
        let mut i: usize = 0;
        while i < src.len()
            invariant
                self.wf(),
                len == self.data@.len(),
                orig.len() == len,
                self.count == old(self).count,
                self.read == old(self).read,
                self.region_type == old(self).region_type,
                self.max_transfer_size_4b == old(self).max_transfer_size_4b,
                self.count + src@.len() < len,
                i <= src@.len(),
                old_contents == Seq::new(
                    self.count as nat,
                    |j: int| orig[wrap(self.read + j, len as int)],
                ),
                forall|j: int|
                    0 <= j < self.count ==> #[trigger] self.data@[wrap(self.read + j, len as int)]
                        == orig[wrap(self.read + j, len as int)],
                forall|k: int|
                    0 <= k < i ==> #[trigger] self.data@[wrap(
                        self.read + self.count + k,
                        len as int,
                    )] == src@[k],
            decreases src@.len() - i,
        {
            let pos = ring_pos(self.read, self.count + i, len);
            self.data.set(pos, src[i]);
            i = i + 1;
        }
        self.count = self.count + src.len();
        assert(self.spec_contents() =~= old_contents + src@) by {
            assert forall|j: int| 0 <= j < self.count implies self.spec_contents()[j] == (
            old_contents + src@)[j] by {
                if j >= old(self).count {
                    let k = j - old(self).count;
                    assert(self.data@[wrap(self.read + old(self).count + k, len as int)] == src@[k]);
                }
            }
        }
        Ok(())
    }

    /// Pop up to `buf.len()` bytes from the FIFO into the front of `buf` and
    /// return how many were popped: all that are waiting, or as many as fit.
    ///
    /// A write-only FIFO returns `WriteOnly`; an empty one returns
    /// `FifoEmpty`; both leave the FIFO and `buf` unchanged.
    pub fn pop(&mut self, buf: &mut [u8]) -> (r: Result<usize, CmsError>)
        requires
            old(self).wf(),
        ensures
            final(self).wf(),
            final(self).spec_capacity() == old(self).spec_capacity(),
            final(self).spec_region_type() == old(self).spec_region_type(),
            final(self).spec_max_transfer_size_4b() == old(self).spec_max_transfer_size_4b(),
            final(buf)@.len() == old(buf)@.len(),
            !old(self).spec_region_type().spec_readable() ==> r == Err::<usize, CmsError>(
                CmsError::WriteOnly,
            ) && final(self).spec_contents() == old(self).spec_contents() && final(buf)@ == old(
                buf,
            )@,
            old(self).spec_region_type().spec_readable() && old(self).spec_contents().len() == 0
                ==> r == Err::<usize, CmsError>(CmsError::FifoEmpty) && final(self).spec_contents()
                == old(self).spec_contents() && final(buf)@ == old(buf)@,
            old(self).spec_region_type().spec_readable() && old(self).spec_contents().len() > 0
                ==> (r matches Ok(n) && n == (if old(buf)@.len() < old(self).spec_contents().len() {
                old(buf)@.len()
            } else {
                old(self).spec_contents().len()
            }) && final(buf)@.subrange(0, n as int) == old(self).spec_contents().take(n as int)
                && final(buf)@.subrange(n as int, final(buf)@.len() as int) == old(
                buf,
            )@.subrange(n as int, old(buf)@.len() as int) && final(self).spec_contents() == old(
                self,
            ).spec_contents().skip(n as int)),
    {
        if !self.region_type.is_readable() {
            return Err(CmsError::WriteOnly);
        }
        if self.count == 0 {
            return Err(CmsError::FifoEmpty);
        }
        let len = self.data.len();
        let n = if buf.len() < self.count {
            buf.len()
        } else {
            self.count
        };
        let ghost old_contents = self.spec_contents();
        let mut i: usize = 0;
        while i < n
            invariant
                self.wf(),
                len == self.data@.len(),
                n <= self.count,
                n <= buf@.len(),
                buf@.len() == old(buf)@.len(),
                i <= n,
                old_contents == self.spec_contents(),
                forall|k: int| 0 <= k < i ==> #[trigger] buf@[k] == old_contents[k],
                forall|k: int| n <= k < buf@.len() ==> #[trigger] buf@[k] == old(buf)@[k],
            decreases n - i,
        {
            let pos = ring_pos(self.read, i, len);
            buf[i] = self.data[pos];
            i = i + 1;
        }
        let new_read = ring_pos(self.read, n, len);
        self.read = new_read;
        self.count = self.count - n;
        assert(self.spec_contents() =~= old_contents.skip(n as int));
        assert(buf@.subrange(0, n as int) =~= old_contents.take(n as int));
        assert(buf@.subrange(n as int, buf@.len() as int) =~= old(buf)@.subrange(
            n as int,
            old(buf)@.len() as int,
        ));
        Ok(n)
    }

    /// Reset the FIFO: both indices return to 0 and the FIFO becomes empty.
    pub fn reset(&mut self)
        requires
            old(self).wf(),
        ensures
            final(self).wf(),
            final(self).spec_contents().len() == 0,
            final(self).spec_capacity() == old(self).spec_capacity(),
            final(self).spec_region_type() == old(self).spec_region_type(),
            final(self).spec_max_transfer_size_4b() == old(self).spec_max_transfer_size_4b(),
    {
        self.read = 0;
        self.count = 0;
    }
}

} // verus!
