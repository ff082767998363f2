//! A memory-window CMS region held in memory.
//!
//! The region keeps its own copy of the backing bytes (read back with
//! `data`), an indirect memory offset (IMO) and the INDIRECT_STATUS flags. Transfers start at the IMO,
//! wrap at the end of the region, and move the IMO on by the transfer size
//! rounded up to a 4-byte boundary; passing the end of the region wraps the
//! IMO and raises the overflow flag.

use vstd::prelude::*;

use crate::bits::{put_bit_u8, with_bit_u8};
use crate::error::{CmsError, OcpError};
use crate::protocol::indirect_status::{CmsRegionType, IndirectStatus, StatusFlags};

verus! {

/// The position reached after stepping `i` bytes on from `start` in a
/// region of `size` bytes, wrapping at the end.
pub open spec fn step_pos(start: int, i: nat, size: int) -> int
    decreases i,
{
    if i == 0 {
        start
    } else {
        let p = step_pos(start, (i - 1) as nat, size) + 1;
        if p >= size {
            0
        } else {
            p
        }
    }
}

/// A position stays inside the region while stepping.
pub proof fn lemma_step_pos_range(start: int, i: nat, size: int)
    requires
        0 <= start < size,
    ensures
        0 <= step_pos(start, i, size) < size,
    decreases i,
{
    if i > 0 {
        lemma_step_pos_range(start, (i - 1) as nat, size);
    }
}

/// Stepping `i` bytes on from `start` lands at `(start + i) % size`.
proof fn lemma_step_pos_mod(start: int, i: nat, size: int)
    requires
        0 <= start < size,
    ensures
        step_pos(start, i, size) == (start + i) % size,
    decreases i,
{
    if i == 0 {
        vstd::arithmetic::div_mod::lemma_small_mod(start as nat, size as nat);
    } else {
        lemma_step_pos_mod(start, (i - 1) as nat, size);
        let x = start + i - 1;
        let q = x / size;
        let r = x % size;
        vstd::arithmetic::div_mod::lemma_fundamental_div_mod(x, size);
        vstd::arithmetic::div_mod::lemma_mod_pos_bound(x, size);
        if r + 1 < size {
            assert(x + 1 == q * size + (r + 1)) by (nonlinear_arith)
                requires
                    x == size * q + r,
            ;
            vstd::arithmetic::div_mod::lemma_fundamental_div_mod_converse(x + 1, size, q, r + 1);
        } else {
            assert(x + 1 == (q + 1) * size + 0) by (nonlinear_arith)
                requires
                    x == size * q + r,
                    r + 1 == size,
            ;
            vstd::arithmetic::div_mod::lemma_fundamental_div_mod_converse(x + 1, size, q + 1, 0);
        }
    }
}

/// Two offsets less than `size` apart fall on different slots of a ring of
/// `size` slots.
proof fn lemma_mod_distinct(a: int, b: int, size: int)
    requires
        size > 0,
        0 <= a < b < a + size,
    ensures
        a % size != b % size,
{
    vstd::arithmetic::div_mod::lemma_fundamental_div_mod(a, size);
    vstd::arithmetic::div_mod::lemma_fundamental_div_mod(b, size);
    if a % size == b % size {
        let qa = a / size;
        let qb = b / size;
        assert(b - a == (qb - qa) * size) by (nonlinear_arith)
            requires
                a == size * qa + a % size,
                b == size * qb + b % size,
                a % size == b % size,
        ;
        assert(false) by (nonlinear_arith)
            requires
                b - a == (qb - qa) * size,
                0 < b - a < size,
                size > 0,
        ;
    }
}

/// The bytes of `data` after writing `src` byte by byte from `start`,
/// wrapping at the end of the region; a later byte overwrites an earlier one
/// at the same position.
pub open spec fn written(data: Seq<u8>, start: int, src: Seq<u8>) -> Seq<u8>
    decreases src.len(),
{
    if src.len() == 0 {
        data
    } else {
        written(data, start, src.drop_last()).update(
            step_pos(start, (src.len() - 1) as nat, data.len() as int),
            src.last(),
        )
    }
}

/// Writing keeps the length of the region.
pub proof fn lemma_written_len(data: Seq<u8>, start: int, src: Seq<u8>)
    requires
        0 <= start < data.len(),
    ensures
        written(data, start, src).len() == data.len(),
    decreases src.len(),
{
    if src.len() > 0 {
        lemma_written_len(data, start, src.drop_last());
        lemma_step_pos_range(start, (src.len() - 1) as nat, data.len() as int);
    }
}

/// Reading back what was written: after `src` is written from `start` into a
/// region of at least `src.len()` bytes, the byte `i` steps on from `start`
/// is `src[i]`. A read from `start` therefore returns `src`.
pub proof fn lemma_write_then_read(data: Seq<u8>, start: int, src: Seq<u8>, i: int)
    requires
        0 <= start < data.len(),
        src.len() <= data.len(),
        0 <= i < src.len(),
    ensures
        written(data, start, src)[step_pos(start, i as nat, data.len() as int)] == src[i],
    decreases src.len(),
{
    let size = data.len() as int;
    let last = src.len() - 1;
    lemma_step_pos_mod(start, i as nat, size);
    lemma_step_pos_mod(start, last as nat, size);
    lemma_step_pos_range(start, i as nat, size);
    lemma_step_pos_range(start, last as nat, size);
    lemma_written_len(data, start, src.drop_last());
    if i < last {
        lemma_write_then_read(data, start, src.drop_last(), i);
        lemma_mod_distinct(start + i, start + last, size);
    }
}

/// The number of bytes the IMO moves on for a transfer of `len` bytes: the
/// length rounded up to a multiple of 4.
pub open spec fn advance(len: nat) -> nat {
    if len % 4 == 0 {
        len
    } else {
        (len - len % 4 + 4) as nat
    }
}

/// A memory-window CMS region backed by bytes held in memory.
#[derive(Debug)]
pub struct SliceIndirectRegion {
    data: Vec<u8>,
    region_type: CmsRegionType,
    imo: u32,
    flags: StatusFlags,
}

impl SliceIndirectRegion {
    /// The region is non-empty, a multiple of 4 bytes, addressable with 32
    /// bits, and its IMO is an aligned offset inside it.
    pub closed spec fn wf(self) -> bool {
        &&& 0 < self.data@.len() <= u32::MAX
        &&& self.data@.len() % 4 == 0
        &&& self.imo % 4 == 0
        &&& self.imo < self.data@.len()
    }

    /// The bytes of the region.
    pub closed spec fn spec_data(self) -> Seq<u8> {
        self.data@
    }

    /// The region type.
    pub closed spec fn spec_region_type(self) -> CmsRegionType {
        self.region_type
    }

    /// The current indirect memory offset in bytes.
    pub closed spec fn spec_imo(self) -> u32 {
        self.imo
    }

    /// The accumulated status flags.
    pub closed spec fn spec_flags(self) -> StatusFlags {
        self.flags
    }

    /// The IMO after a transfer of `len` bytes.
    pub open spec fn spec_imo_after(self, len: nat) -> int {
        (self.spec_imo() + advance(len)) % (self.spec_data().len() as int)
    }

    /// Whether a transfer of `len` bytes runs the IMO past the end.
    pub open spec fn spec_wraps(self, len: nat) -> bool {
        self.spec_imo() + advance(len) >= self.spec_data().len()
    }

    /// Create a region holding a copy of `buf`.
    ///
    /// Returns `InvalidCmsBufferSize` exactly when `buf` is empty, not a
    /// multiple of 4 bytes long, or longer than a 32-bit size can express.
    pub fn new(buf: &[u8], region_type: CmsRegionType) -> (r: Result<Self, OcpError>)
        ensures
            (buf@.len() == 0 || buf@.len() % 4 != 0 || buf@.len() > u32::MAX) ==> r == Err::<
                Self,
                OcpError,
            >(OcpError::InvalidCmsBufferSize),
            !(buf@.len() == 0 || buf@.len() % 4 != 0 || buf@.len() > u32::MAX) ==> (r matches Ok(
                s,
            ) && s.wf() && s.spec_data() == buf@ && s.spec_region_type() == region_type && s.spec_imo() == 0
                && s.spec_flags().0 == 0),
    {
        if buf.len() == 0 || buf.len() % 4 != 0 || buf.len() > u32::MAX as usize {
            return Err(OcpError::InvalidCmsBufferSize);
        }
        let data = vstd::slice::slice_to_vec(buf);
        Ok(Self { data, region_type, imo: 0, flags: StatusFlags(0) })
    }

    /// The bytes the region holds, such as an image written into it.
    pub fn data(&self) -> (r: &[u8])
        ensures
            r@ == self.spec_data(),
    {
        self.data.as_slice()
    }

    /// The region size in bytes.
    pub fn size(&self) -> (r: u32)
        requires
            self.wf(),
        ensures
            r == self.spec_data().len(),
            r > 0,
            r % 4 == 0,
    {
        self.data.len() as u32
    }

    /// The current INDIRECT_STATUS of this region.
    pub fn status(&self) -> (r: IndirectStatus)
        requires
            self.wf(),
        ensures
            r.spec_flags() == self.spec_flags(),
            r.spec_region_type() == self.spec_region_type(),
            !r.spec_polling(),
            r.spec_size_4b() == self.spec_data().len() / 4,
    {
        IndirectStatus::new(self.flags, self.region_type, false, self.size())
    }

    /// The current indirect memory offset (IMO) in bytes, 4-byte aligned.
    pub fn imo(&self) -> (r: u32)
        requires
            self.wf(),
        ensures
            r == self.spec_imo(),
            r % 4 == 0,
            r < self.spec_data().len(),
    {
        self.imo
    }

    /// Sets the IMO. Unaligned values are truncated to the previous 4-byte
    /// boundary, and offsets past the end wrap around the region.
    pub fn set_imo(&mut self, offset: u32)
        requires
            old(self).wf(),
        ensures
            final(self).wf(),
            final(self).spec_imo() == (offset - offset % 4) % (old(self).spec_data().len() as int),
            final(self).spec_data() == old(self).spec_data(),
            final(self).spec_region_type() == old(self).spec_region_type(),
            final(self).spec_flags() == old(self).spec_flags(),
    {
        let size = self.size();
        let aligned = offset - offset % 4;
        let imo = aligned % size;
        proof {
            assert(aligned % 4 == 0);
            assert(imo % 4 == 0) by (nonlinear_arith)
                requires
                    imo == aligned % size,
                    aligned % 4 == 0,
                    size % 4 == 0,
                    size > 0,
            {
                vstd::arithmetic::div_mod::lemma_mod_mod(aligned as int, 4, (size / 4) as int);
            }
        }
        self.imo = imo;
    }

    /// Write `src` at the current IMO.
    ///
    /// Bytes past the end of the region wrap to its start. The IMO moves on by
    /// the transfer size rounded up to a 4-byte boundary; moving past the end
    /// wraps it and raises the overflow flag. A read-only region (log or
    /// vendor read-only) takes nothing, raises the read-only error flag and
    /// returns `ReadOnly`.
    pub fn write(&mut self, src: &[u8]) -> (r: Result<(), CmsError>)
        requires
            old(self).wf(),
        ensures
            final(self).wf(),
            final(self).spec_region_type() == old(self).spec_region_type(),
            !old(self).spec_region_type().spec_writable() ==> {
                &&& r == Err::<(), CmsError>(CmsError::ReadOnly)
                &&& final(self).spec_data() == old(self).spec_data()
                &&& final(self).spec_imo() == old(self).spec_imo()
                &&& final(self).spec_flags().0 == with_bit_u8(old(self).spec_flags().0, 1, true)
            },
            old(self).spec_region_type().spec_writable() ==> {
                &&& r == Ok::<(), CmsError>(())
                &&& final(self).spec_data() == written(
                    old(self).spec_data(),
                    old(self).spec_imo() as int,
                    src@,
                )
                &&& final(self).spec_imo() == old(self).spec_imo_after(src@.len())
                &&& final(self).spec_flags().0 == if old(self).spec_wraps(src@.len()) {
                    with_bit_u8(old(self).spec_flags().0, 0, true)
                } else {
                    old(self).spec_flags().0
                }
            },
    {
        if !self.region_type.is_writable() {
            self.flags = StatusFlags(put_bit_u8(self.flags.0, 1, true));
            return Err(CmsError::ReadOnly);
        }
        let ghost orig = self.data@;
        let ghost start = self.imo as int;
        let size = self.data.len();
        let mut pos: usize = self.imo as usize;
        let mut i: usize = 0;
        proof {
            lemma_written_len(orig, start, src@.take(0));
            assert(src@.take(0) =~= Seq::<u8>::empty());
        }
        while i < src.len()
            invariant
                i <= src@.len(),
                size == orig.len(),
                0 < size,
                0 <= start < size,
                pos == step_pos(start, i as nat, size as int),
                0 <= pos < size,
                self.data@ == written(orig, start, src@.take(i as int)),
                self.imo == start,
                self.wf(),
                self.region_type == old(self).region_type,
                self.flags == old(self).flags,
            decreases src@.len() - i,
        {
            proof {
                lemma_written_len(orig, start, src@.take(i as int));
                assert(src@.take(i + 1).drop_last() =~= src@.take(i as int));
            }
            self.data.set(pos, src[i]);
            pos = if pos + 1 >= size {
                0
            } else {
                pos + 1
            };
            i = i + 1;
        }
        assert(src@.take(src@.len() as int) =~= src@);
        proof {
            lemma_written_len(orig, start, src@);
        }
        self.advance_imo(src.len());
        Ok(())
    }

    /// Read `buf.len()` bytes starting at the current IMO into `buf`,
    /// wrapping at the end of the region, and return the number read.
    ///
    /// The IMO moves on as for a write. A write-only region (vendor write-only)
    /// returns `WriteOnly` and leaves everything unchanged.
    pub fn read(&mut self, buf: &mut [u8]) -> (r: Result<usize, CmsError>)
        requires
            old(self).wf(),
        ensures
            final(self).wf(),
            final(self).spec_region_type() == old(self).spec_region_type(),
            final(self).spec_data() == old(self).spec_data(),
            !old(self).spec_region_type().spec_readable() ==> {
                &&& r == Err::<usize, CmsError>(CmsError::WriteOnly)
                &&& final(self).spec_imo() == old(self).spec_imo()
                &&& final(self).spec_flags() == old(self).spec_flags()
                &&& final(buf)@ == old(buf)@
            },
            old(self).spec_region_type().spec_readable() ==> {
                &&& r == Ok::<usize, CmsError>(old(buf)@.len() as usize)
                &&& final(buf)@.len() == old(buf)@.len()
                &&& forall|i: int|
                    0 <= i < old(buf)@.len() ==> #[trigger] final(buf)@[i] == old(self).spec_data()[step_pos(
                        old(self).spec_imo() as int,
                        i as nat,
                        old(self).spec_data().len() as int,
                    )]
                &&& final(self).spec_imo() == old(self).spec_imo_after(old(buf)@.len())
                &&& final(self).spec_flags().0 == if old(self).spec_wraps(old(buf)@.len()) {
                    with_bit_u8(old(self).spec_flags().0, 0, true)
                } else {
                    old(self).spec_flags().0
                }
            },
    {
        if !self.region_type.is_readable() {
            return Err(CmsError::WriteOnly);
        }
        let ghost start = self.imo as int;
        let size = self.data.len();
        let mut pos: usize = self.imo as usize;
        let mut i: usize = 0;
        while i < buf.len()
            invariant
                i <= buf@.len(),
                buf@.len() == old(buf)@.len(),
                size == self.data@.len(),
                0 < size,
                0 <= start < size,
                pos == step_pos(start, i as nat, size as int),
                0 <= pos < size,
                forall|j: int|
                    0 <= j < i ==> #[trigger] buf@[j] == self.data@[step_pos(
                        start,
                        j as nat,
                        size as int,
                    )],
            decreases buf@.len() - i,
        {
            buf[i] = self.data[pos];
            pos = if pos + 1 >= size {
                0
            } else {
                pos + 1
            };
            i = i + 1;
        }
        let n = buf.len();
        self.advance_imo(n);
        Ok(n)
    }

    /// Moves the IMO on after a transfer of `len` bytes, wrapping and raising
    /// the overflow flag when it passes the end of the region.
    fn advance_imo(&mut self, len: usize)
        requires
            old(self).wf(),
        ensures
            final(self).wf(),
            final(self).spec_data() == old(self).spec_data(),
            final(self).spec_region_type() == old(self).spec_region_type(),
            final(self).spec_imo() == old(self).spec_imo_after(len as nat),
            final(self).spec_flags().0 == if old(self).spec_wraps(len as nat) {
                with_bit_u8(old(self).spec_flags().0, 0, true)
            } else {
                old(self).spec_flags().0
            },
    {
        let size = self.data.len() as u128;
        let steps = (len / 4) as u128 + if len % 4 != 0 {
            1
        } else {
            0
        };
        let total = self.imo as u128 + steps * 4;
        assert(steps * 4 == advance(len as nat)) by (nonlinear_arith)
            requires
                steps == len / 4 + if len % 4 != 0 {
                    1int
                } else {
                    0int
                },
        ;
        if total >= size {
            self.flags = StatusFlags(put_bit_u8(self.flags.0, 0, true));
        }
        let new_imo = (total % size) as u32;
        proof {
            assert(total % 4 == 0);
            assert(new_imo % 4 == 0) by (nonlinear_arith)
                requires
                    new_imo == total % size,
                    total % 4 == 0,
                    size % 4 == 0,
                    size > 0,
            {
                vstd::arithmetic::div_mod::lemma_mod_mod(total as int, 4, (size / 4) as int);
            }
        }
        self.imo = new_imo;
    }

    /// Clear accumulated status flags (clear-on-read of INDIRECT_STATUS).
    pub fn clear_status(&mut self)
        requires
            old(self).wf(),
        ensures
            final(self).wf(),
            final(self).spec_flags().0 == 0,
            final(self).spec_data() == old(self).spec_data(),
            final(self).spec_region_type() == old(self).spec_region_type(),
            final(self).spec_imo() == old(self).spec_imo(),
    {
        self.flags = StatusFlags(0);
    }

    /// Reset the transfer session: IMO back to 0 and all flags cleared.
    pub fn reset(&mut self)
        requires
            old(self).wf(),
        ensures
            final(self).wf(),
            final(self).spec_flags().0 == 0,
            final(self).spec_imo() == 0,
            final(self).spec_data() == old(self).spec_data(),
            final(self).spec_region_type() == old(self).spec_region_type(),
    {
        self.imo = 0;
        self.flags = StatusFlags(0);
    }
}

} // verus!
