//! Single-bit and nibble accessors shared by the register-style fields of the
//! protocol messages, with the facts that relate reads to writes.

use vstd::prelude::*;

verus! {

/// Bit `n` of a byte.
pub open spec fn bit_of_u8(v: u8, n: u8) -> bool {
    (v >> n) & 1u8 == 1u8
}

/// The byte `v` with bit `n` set to `b` and every other bit kept.
pub open spec fn with_bit_u8(v: u8, n: u8, b: bool) -> u8 {
    if b {
        v | (1u8 << n)
    } else {
        v & !(1u8 << n)
    }
}

/// Bit `n` of a 16-bit word.
pub open spec fn bit_of_u16(v: u16, n: u16) -> bool {
    (v >> n) & 1u16 == 1u16
}

/// The word `v` with bit `n` set to `b` and every other bit kept.
pub open spec fn with_bit_u16(v: u16, n: u16, b: bool) -> u16 {
    if b {
        v | (1u16 << n)
    } else {
        v & !(1u16 << n)
    }
}

/// Reads bit `n` of `v`.
pub fn get_bit_u8(v: u8, n: u8) -> (r: bool)
    requires
        n < 8,
    ensures
        r == bit_of_u8(v, n),
{
    (v >> n) & 1u8 == 1u8
}

/// Writes bit `n` of `v`.
pub fn put_bit_u8(v: u8, n: u8, b: bool) -> (r: u8)
    requires
        n < 8,
    ensures
        r == with_bit_u8(v, n, b),
{
    if b {
        v | (1u8 << n)
    } else {
        v & !(1u8 << n)
    }
}

/// Reads bit `n` of `v`.
pub fn get_bit_u16(v: u16, n: u16) -> (r: bool)
    requires
        n < 16,
    ensures
        r == bit_of_u16(v, n),
{
    (v >> n) & 1u16 == 1u16
}

/// Writes bit `n` of `v`.
pub fn put_bit_u16(v: u16, n: u16, b: bool) -> (r: u16)
    requires
        n < 16,
    ensures
        r == with_bit_u16(v, n, b),
{
    if b {
        v | (1u16 << n)
    } else {
        v & !(1u16 << n)
    }
}

/// Writing bit `n` of a byte and reading bit `m` back gives the written value
/// when `m == n` and the old bit otherwise.
pub proof fn lemma_with_bit_u8(v: u8, n: u8, m: u8, b: bool)
    requires
        n < 8,
        m < 8,
    ensures
        bit_of_u8(with_bit_u8(v, n, b), m) == (if m == n { b } else { bit_of_u8(v, m) }),
{
    assert(bit_of_u8(with_bit_u8(v, n, b), m) == (if m == n { b } else { bit_of_u8(v, m) }))
        by (bit_vector)
        requires
            n < 8,
            m < 8,
    ;
}

/// The low nibble of a byte.
pub open spec fn low_nibble(v: u8) -> u8 {
    v & 0x0Fu8
}

/// The high nibble of a byte, shifted down.
pub open spec fn high_nibble(v: u8) -> u8 {
    (v >> 4u8) & 0x0Fu8
}

/// The byte `v` with its low nibble replaced by the low four bits of `x`.
pub open spec fn with_low_nibble(v: u8, x: u8) -> u8 {
    (v & 0xF0u8) | (x & 0x0Fu8)
}

/// The byte `v` with its high nibble replaced by the low four bits of `x`.
pub open spec fn with_high_nibble(v: u8, x: u8) -> u8 {
    (v & 0x0Fu8) | ((x & 0x0Fu8) << 4u8)
}

/// Facts about the nibble accessors: each write is read back (masked to four
/// bits), leaves the other nibble alone, and a byte is its two nibbles.
pub proof fn lemma_nibbles(v: u8, x: u8)
    ensures
        low_nibble(with_low_nibble(v, x)) == x & 0x0Fu8,
        high_nibble(with_low_nibble(v, x)) == high_nibble(v),
        high_nibble(with_high_nibble(v, x)) == x & 0x0Fu8,
        low_nibble(with_high_nibble(v, x)) == low_nibble(v),
        v == low_nibble(v) + 16 * high_nibble(v),
        low_nibble(v) < 16,
        high_nibble(v) < 16,
        x < 16 ==> x & 0x0Fu8 == x,
{
    assert(low_nibble(with_low_nibble(v, x)) == x & 0x0Fu8) by (bit_vector);
    assert(high_nibble(with_low_nibble(v, x)) == high_nibble(v)) by (bit_vector);
    assert(high_nibble(with_high_nibble(v, x)) == x & 0x0Fu8) by (bit_vector);
    assert(low_nibble(with_high_nibble(v, x)) == low_nibble(v)) by (bit_vector);
    assert(v == low_nibble(v) + 16 * high_nibble(v)) by (bit_vector);
    assert(low_nibble(v) < 16) by (bit_vector);
    assert(high_nibble(v) < 16) by (bit_vector);
    assert(x < 16 ==> x & 0x0Fu8 == x) by (bit_vector);
}

/// A byte made of a low nibble `lo` and a high nibble `hi` gives them back.
pub proof fn lemma_nibbles_of(lo: u8, hi: u8)
    requires
        lo < 16,
        hi < 16,
    ensures
        low_nibble((lo + 16 * hi) as u8) == lo,
        high_nibble((lo + 16 * hi) as u8) == hi,
{
    assert(low_nibble((lo + 16 * hi) as u8) == lo && high_nibble((lo + 16 * hi) as u8) == hi)
        by (bit_vector)
        requires
            lo < 16,
            hi < 16,
    ;
}

/// The little-endian bytes of a 16-bit word.
pub open spec fn le_bytes_u16(x: u16) -> Seq<u8> {
    seq![x as u8, (x >> 8u16) as u8]
}

/// The little-endian bytes of a 32-bit word.
pub open spec fn le_bytes_u32(x: u32) -> Seq<u8> {
    seq![x as u8, (x >> 8u32) as u8, (x >> 16u32) as u8, (x >> 24u32) as u8]
}

/// The 32-bit word whose little-endian bytes are `b0` to `b3`.
pub open spec fn u32_of_le(b0: u8, b1: u8, b2: u8, b3: u8) -> u32 {
    (b0 as u32) | ((b1 as u32) << 8u32) | ((b2 as u32) << 16u32) | ((b3 as u32) << 24u32)
}

/// Little-endian encoding of a 16-bit word.
pub fn u16_to_le(x: u16) -> (r: [u8; 2])
    ensures
        r@ == le_bytes_u16(x),
{
    let r = [x as u8, (x >> 8u16) as u8];
    assert(r@ =~= le_bytes_u16(x));
    r
}

/// Little-endian encoding of a 32-bit word.
pub fn u32_to_le(x: u32) -> (r: [u8; 4])
    ensures
        r@ == le_bytes_u32(x),
{
    let r = [x as u8, (x >> 8u32) as u8, (x >> 16u32) as u8, (x >> 24u32) as u8];
    assert(r@ =~= le_bytes_u32(x));
    r
}

/// Little-endian decoding of a 32-bit word.
pub fn u32_from_le(b0: u8, b1: u8, b2: u8, b3: u8) -> (r: u32)
    ensures
        r == u32_of_le(b0, b1, b2, b3),
{
    (b0 as u32) | ((b1 as u32) << 8u32) | ((b2 as u32) << 16u32) | ((b3 as u32) << 24u32)
}

/// Encoding a word and decoding its bytes gives the word back, decoding four
/// bytes and encoding the word gives the bytes back, and the decoded word is
/// the usual base-256 number.
pub proof fn lemma_le_u32(x: u32, b0: u8, b1: u8, b2: u8, b3: u8)
    ensures
        u32_of_le(x as u8, (x >> 8u32) as u8, (x >> 16u32) as u8, (x >> 24u32) as u8) == x,
        u32_of_le(b0, b1, b2, b3) as u8 == b0,
        (u32_of_le(b0, b1, b2, b3) >> 8u32) as u8 == b1,
        (u32_of_le(b0, b1, b2, b3) >> 16u32) as u8 == b2,
        (u32_of_le(b0, b1, b2, b3) >> 24u32) as u8 == b3,
        u32_of_le(b0, b1, b2, b3) == b0 + 256 * b1 + 65536 * b2 + 16777216 * b3,
{
    assert(u32_of_le(x as u8, (x >> 8u32) as u8, (x >> 16u32) as u8, (x >> 24u32) as u8) == x)
        by (bit_vector);
    assert(u32_of_le(b0, b1, b2, b3) as u8 == b0) by (bit_vector);
    assert((u32_of_le(b0, b1, b2, b3) >> 8u32) as u8 == b1) by (bit_vector);
    assert((u32_of_le(b0, b1, b2, b3) >> 16u32) as u8 == b2) by (bit_vector);
    assert((u32_of_le(b0, b1, b2, b3) >> 24u32) as u8 == b3) by (bit_vector);
    assert(u32_of_le(b0, b1, b2, b3) == b0 + 256 * b1 + 65536 * b2 + 16777216 * b3)
        by (bit_vector);
}

/// `buf` with the bytes of `src` written from `offset` on and every other
/// byte kept.
pub open spec fn spliced(buf: Seq<u8>, offset: int, src: Seq<u8>) -> Seq<u8> {
    buf.subrange(0, offset) + src + buf.subrange(offset + src.len(), buf.len() as int)
}

/// Copies `src` into `buf` starting at `offset`.
pub fn copy_at<const N: usize>(buf: &mut [u8; N], offset: usize, src: &[u8])
    requires
        offset + src@.len() <= N,
    ensures
        final(buf)@ == spliced(old(buf)@, offset as int, src@),
{
    let ghost orig = buf@;
    let mut i: usize = 0;
    while i < src.len()
        invariant
            i <= src@.len(),
            offset + src@.len() <= N,
            buf@.len() == N,
            orig.len() == N,
            forall|j: int| 0 <= j < offset ==> buf@[j] == orig[j],
            forall|j: int| 0 <= j < i ==> buf@[offset + j] == src@[j],
            forall|j: int| offset + i <= j < N ==> buf@[j] == orig[j],
        decreases src@.len() - i,
    {
        buf[offset + i] = src[i];
        i = i + 1;
    }
    assert(buf@ =~= spliced(orig, offset as int, src@));
}

} // verus!
