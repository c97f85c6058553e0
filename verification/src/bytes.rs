//! Little-endian byte packing for the wire codecs.
//!
//! Both wire formats are little-endian. The specifications below define what
//! a 16- or 32-bit word looks like as bytes, and the executable helpers are
//! proved against those definitions, including the two round-trip laws.

use vstd::prelude::*;

verus! {

/// The 32-bit word encoded by four little-endian bytes.
pub open spec fn le32(b: Seq<u8>) -> u32
    recommends
        b.len() == 4,
{
    (b[0] as u32) | ((b[1] as u32) << 8) | ((b[2] as u32) << 16) | ((b[3] as u32) << 24)
}

/// The four little-endian bytes of a 32-bit word.
pub open spec fn le32_bytes(x: u32) -> Seq<u8> {
    seq![
        (x & 0xff) as u8,
        ((x >> 8) & 0xff) as u8,
        ((x >> 16) & 0xff) as u8,
        ((x >> 24) & 0xff) as u8,
    ]
}

/// The two little-endian bytes of a 16-bit word.
pub open spec fn le16_bytes(x: u16) -> Seq<u8> {
    seq![(x & 0xff) as u8, ((x >> 8) & 0xff) as u8]
}

/// Packing a 32-bit word into bytes and reading the bytes back yields the
/// same word.
pub proof fn lemma_le32_round_trip(x: u32)
    ensures
        le32(le32_bytes(x)) == x,
{
    assert(((x & 0xff) as u8 as u32) | ((((x >> 8) & 0xff) as u8 as u32) << 8)
        | ((((x >> 16) & 0xff) as u8 as u32) << 16) | ((((x >> 24) & 0xff) as u8 as u32) << 24)
        == x) by (bit_vector);
}

/// Reading four bytes as a 32-bit word and packing the word back yields the
/// same four bytes.
pub proof fn lemma_le32_bytes_round_trip(b0: u8, b1: u8, b2: u8, b3: u8)
    ensures
        le32_bytes(le32(seq![b0, b1, b2, b3])) =~= seq![b0, b1, b2, b3],
{
    let x = (b0 as u32) | ((b1 as u32) << 8) | ((b2 as u32) << 16) | ((b3 as u32) << 24);
    assert((x & 0xff) as u8 == b0 && ((x >> 8) & 0xff) as u8 == b1 && ((x >> 16) & 0xff) as u8
        == b2 && ((x >> 24) & 0xff) as u8 == b3) by (bit_vector)
        requires
            x == (b0 as u32) | ((b1 as u32) << 8) | ((b2 as u32) << 16) | ((b3 as u32) << 24),
    ;
}

/// Reads the 32-bit little-endian word at `offset`.
pub fn read_u32_le(buf: &Vec<u8>, offset: usize) -> (r: u32)
    requires
        offset + 4 <= buf@.len(),
    ensures
        r == le32(buf@.subrange(offset as int, offset as int + 4)),
{
    let n = buf.len();
    assert(offset + 4 <= n);
    let r = (buf[offset] as u32) | ((buf[offset + 1] as u32) << 8) | ((buf[offset + 2] as u32)
        << 16) | ((buf[offset + 3] as u32) << 24);
    proof {
        assert(buf@.subrange(offset as int, offset as int + 4) =~= seq![
            buf@[offset as int],
            buf@[offset as int + 1],
            buf@[offset as int + 2],
            buf@[offset as int + 3],
        ]);
    }
    r
}

/// Appends the four little-endian bytes of `x`.
pub fn push_u32_le(buf: &mut Vec<u8>, x: u32)
    ensures
        final(buf)@ == old(buf)@ + le32_bytes(x),
{
    buf.push((x & 0xff) as u8);
    buf.push(((x >> 8) & 0xff) as u8);
    buf.push(((x >> 16) & 0xff) as u8);
    buf.push(((x >> 24) & 0xff) as u8);
    proof {
        assert(buf@ =~= old(buf)@ + le32_bytes(x));
    }
}

/// Appends the two little-endian bytes of `x`.
pub fn push_u16_le(buf: &mut Vec<u8>, x: u16)
    ensures
        final(buf)@ == old(buf)@ + le16_bytes(x),
{
    buf.push((x & 0xff) as u8);
    buf.push(((x >> 8) & 0xff) as u8);
    proof {
        assert(buf@ =~= old(buf)@ + le16_bytes(x));
    }
}

} // verus!
