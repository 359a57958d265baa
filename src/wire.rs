//! Byte-level layout of the kernel structures: native little-endian integers and
//! the fixed headers that frame every message.
use vstd::prelude::*;

verus! {

/// Size in bytes of the header that prefixes every request.
pub const IN_HEADER_SIZE: usize = 40;

/// Size in bytes of the header that prefixes every reply and notification.
pub const OUT_HEADER_SIZE: usize = 16;

/// The two little-endian bytes of a 16-bit value.
pub open spec fn le16(v: u16) -> Seq<u8> {
    seq![(v & 0xff) as u8, ((v >> 8u16) & 0xff) as u8]
}

/// The four little-endian bytes of a 32-bit value.
pub open spec fn le32(v: u32) -> Seq<u8> {
    seq![
        (v & 0xff) as u8,
        ((v >> 8u32) & 0xff) as u8,
        ((v >> 16u32) & 0xff) as u8,
        ((v >> 24u32) & 0xff) as u8,
    ]
}

/// The eight little-endian bytes of a 64-bit value.
pub open spec fn le64(v: u64) -> Seq<u8> {
    le32((v & 0xffff_ffff) as u32) + le32((v >> 32u64) as u32)
}

/// The 32-bit value stored little-endian at `i`.
pub open spec fn u32_at(s: Seq<u8>, i: int) -> u32 {
    (s[i] as u32) | ((s[i + 1] as u32) << 8u32) | ((s[i + 2] as u32) << 16u32) | ((s[i + 3]
        as u32) << 24u32)
}

/// The 64-bit value stored little-endian at `i`.
pub open spec fn u64_at(s: Seq<u8>, i: int) -> u64 {
    (u32_at(s, i) as u64) | ((u32_at(s, i + 4) as u64) << 32u64)
}

proof fn lemma_le32_bytes(v: u32)
    ensures
        (v & 0xff) as u8 as u32 | ((((v >> 8u32) & 0xff) as u8 as u32) << 8u32) | ((((v
            >> 16u32) & 0xff) as u8 as u32) << 16u32) | ((((v >> 24u32) & 0xff) as u8 as u32)
            << 24u32) == v,
{
    assert((v & 0xff) as u8 as u32 | ((((v >> 8u32) & 0xff) as u8 as u32) << 8u32) | ((((v
        >> 16u32) & 0xff) as u8 as u32) << 16u32) | ((((v >> 24u32) & 0xff) as u8 as u32)
        << 24u32) == v) by (bit_vector);
}

/// Reading back the bytes of a 32-bit value gives the value.
pub proof fn lemma_u32_round_trip(v: u32)
    ensures
        u32_at(le32(v), 0) == v,
{
    lemma_le32_bytes(v);
}

/// Reading back the bytes of a 64-bit value gives the value.
pub proof fn lemma_u64_round_trip(v: u64)
    ensures
        u64_at(le64(v), 0) == v,
{
    let lo = (v & 0xffff_ffff) as u32;
    let hi = (v >> 32u64) as u32;
    lemma_le32_bytes(lo);
    lemma_le32_bytes(hi);
    let s = le64(v);
    assert(u32_at(s, 0) == lo);
    assert(u32_at(s, 4) == hi);
    assert((lo as u64) | ((hi as u64) << 32u64) == v) by (bit_vector)
        requires
            lo == (v & 0xffff_ffff) as u32,
            hi == (v >> 32u64) as u32,
    ;
}

/// Writing out a 32-bit value read from four bytes gives those bytes.
pub proof fn lemma_le32_of_bytes(s: Seq<u8>, i: int)
    requires
        0 <= i,
        i + 4 <= s.len(),
    ensures
        le32(u32_at(s, i)) == s.subrange(i, i + 4),
{
    let (b0, b1, b2, b3) = (s[i], s[i + 1], s[i + 2], s[i + 3]);
    let v = u32_at(s, i);
    assert(v == (b0 as u32) | ((b1 as u32) << 8u32) | ((b2 as u32) << 16u32) | ((b3 as u32)
        << 24u32));
    assert((v & 0xff) as u8 == b0 && ((v >> 8u32) & 0xff) as u8 == b1 && ((v >> 16u32)
        & 0xff) as u8 == b2 && ((v >> 24u32) & 0xff) as u8 == b3) by (bit_vector)
        requires
            v == (b0 as u32) | ((b1 as u32) << 8u32) | ((b2 as u32) << 16u32) | ((b3 as u32)
                << 24u32),
    ;
    assert(le32(v) =~= s.subrange(i, i + 4));
}

/// Writing out a 64-bit value read from eight bytes gives those bytes.
pub proof fn lemma_le64_of_bytes(s: Seq<u8>, i: int)
    requires
        0 <= i,
        i + 8 <= s.len(),
    ensures
        le64(u64_at(s, i)) == s.subrange(i, i + 8),
{
    let lo = u32_at(s, i);
    let hi = u32_at(s, i + 4);
    let v = u64_at(s, i);
    assert((v & 0xffff_ffff) as u32 == lo && (v >> 32u64) as u32 == hi) by (bit_vector)
        requires
            v == (lo as u64) | ((hi as u64) << 32u64),
    ;
    lemma_le32_of_bytes(s, i);
    lemma_le32_of_bytes(s, i + 4);
    assert(le64(v) =~= s.subrange(i, i + 8));
}

/// A value read from a window of `s` is the value read from `s` at the
/// window's offset.
pub proof fn lemma_at_subrange(s: Seq<u8>, start: int, end: int, k: int)
    requires
        0 <= start <= end <= s.len(),
        0 <= k,
        start + k + 8 <= end,
    ensures
        u32_at(s.subrange(start, end), k) == u32_at(s, start + k),
        u32_at(s.subrange(start, end), k + 4) == u32_at(s, start + k + 4),
        u64_at(s.subrange(start, end), k) == u64_at(s, start + k),
{
}

/// Appends the little-endian bytes of a 16-bit value.
pub fn push_u16(out: &mut Vec<u8>, v: u16)
    ensures
        final(out)@ == old(out)@ + le16(v),
{
    out.push((v & 0xff) as u8);
    out.push(((v >> 8u16) & 0xff) as u8);
    assert(final(out)@ =~= old(out)@ + le16(v));
}

/// Appends the little-endian bytes of a 32-bit value.
pub fn push_u32(out: &mut Vec<u8>, v: u32)
    ensures
        final(out)@ == old(out)@ + le32(v),
{
    out.push((v & 0xff) as u8);
    out.push(((v >> 8u32) & 0xff) as u8);
    out.push(((v >> 16u32) & 0xff) as u8);
    out.push(((v >> 24u32) & 0xff) as u8);
    assert(final(out)@ =~= old(out)@ + le32(v));
}

/// Appends the little-endian bytes of a 64-bit value.
pub fn push_u64(out: &mut Vec<u8>, v: u64)
    ensures
        final(out)@ == old(out)@ + le64(v),
{
    push_u32(out, (v & 0xffff_ffff) as u32);
    push_u32(out, (v >> 32u64) as u32);
    assert(final(out)@ =~= old(out)@ + le64(v));
}

/// Appends every byte of `src`.
pub fn push_bytes(out: &mut Vec<u8>, src: &[u8])
    ensures
        final(out)@ == old(out)@ + src@,
{
    let mut i: usize = 0;
    while i < src.len()
        invariant
            i <= src@.len(),
            out@ == old(out)@ + src@.subrange(0, i as int),
        decreases src@.len() - i,
    {
        out.push(src[i]);
        i = i + 1;
        assert(out@ =~= old(out)@ + src@.subrange(0, i as int));
    }
    assert(src@.subrange(0, i as int) =~= src@);
}

/// Reads the 32-bit value stored little-endian at `i`.
pub fn read_u32(buf: &[u8], i: usize) -> (r: u32)
    requires
        i + 4 <= buf@.len(),
    ensures
        r == u32_at(buf@, i as int),
{
    (buf[i] as u32) | ((buf[i + 1] as u32) << 8u32) | ((buf[i + 2] as u32) << 16u32) | ((buf[i
        + 3] as u32) << 24u32)
}

/// Reads the 64-bit value stored little-endian at `i`.
pub fn read_u64(buf: &[u8], i: usize) -> (r: u64)
    requires
        i + 8 <= buf@.len(),
    ensures
        r == u64_at(buf@, i as int),
{
    // Bounds `i + 4` by the buffer's length, which fits in a usize.
    let total = buf.len();
    assert(i + 8 <= total);
    let lo = read_u32(buf, i);
    let hi = read_u32(buf, i + 4);
    (lo as u64) | ((hi as u64) << 32u64)
}

} // verus!
