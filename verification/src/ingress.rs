//! Ingress wire codec: 24-byte Stokes datagrams.
//!
//! A datagram carries six little-endian 32-bit fields at fixed offsets:
//! `S0, S1, S2, S3, DOP` (IEEE-754 single-precision bit patterns) and
//! `TIMESTAMP` (an unsigned integer). The decoder keeps the five
//! measurement fields as raw bit patterns: this library does no
//! floating-point arithmetic, and the shell around it widens the bits to
//! double precision and normalizes `S1..S3` by `S0` downstream.
//!
//! Any size other than exactly 24 bytes is a fatal schema violation, never
//! silently truncated or padded.

use vstd::prelude::*;

use crate::bytes::{
    le32, le32_bytes, lemma_le32_bytes_round_trip, lemma_le32_round_trip, push_u32_le, read_u32_le,
};
use crate::errors::IngestError;

verus! {

/// The exact size of a well-formed ingress datagram.
pub const DATAGRAM_SIZE: usize = 24;

/// One decoded ingress datagram. The five measurement fields are
/// single-precision IEEE-754 bit patterns, kept as bits.
#[derive(Clone, Copy, Debug, PartialEq, Eq, Structural)]
pub struct StokesDatagram {
    pub s0_bits: u32,
    pub s1_bits: u32,
    pub s2_bits: u32,
    pub s3_bits: u32,
    /// Degree of polarization; decoded but not forwarded downstream.
    pub dop_bits: u32,
    pub timestamp: u32,
}

/// The datagram encoded by a well-formed 24-byte buffer.
pub open spec fn decoded(b: Seq<u8>) -> StokesDatagram
    recommends
        b.len() == 24,
{
    StokesDatagram {
        s0_bits: le32(b.subrange(0, 4)),
        s1_bits: le32(b.subrange(4, 8)),
        s2_bits: le32(b.subrange(8, 12)),
        s3_bits: le32(b.subrange(12, 16)),
        dop_bits: le32(b.subrange(16, 20)),
        timestamp: le32(b.subrange(20, 24)),
    }
}

/// The 24-byte wire image of a datagram.
pub open spec fn datagram_bytes(d: StokesDatagram) -> Seq<u8> {
    le32_bytes(d.s0_bits) + le32_bytes(d.s1_bits) + le32_bytes(d.s2_bits) + le32_bytes(d.s3_bits)
        + le32_bytes(d.dop_bits) + le32_bytes(d.timestamp)
}

/// Decodes one received datagram. Exactly the 24-byte buffers decode;
/// every other size is rejected as a schema violation that reports the
/// offending size.
pub fn decode_datagram(buf: &Vec<u8>) -> (r: Result<StokesDatagram, IngestError>)
    ensures
        buf@.len() == 24 ==> r == Ok::<StokesDatagram, IngestError>(decoded(buf@)),
        buf@.len() != 24 ==> r == Err::<StokesDatagram, IngestError>(
            (IngestError::SchemaViolation { size: buf@.len() as usize }),
        ),
{
    if buf.len() != DATAGRAM_SIZE {
        return Err(IngestError::SchemaViolation { size: buf.len() });
    }
    Ok(
        StokesDatagram {
            s0_bits: read_u32_le(buf, 0),
            s1_bits: read_u32_le(buf, 4),
            s2_bits: read_u32_le(buf, 8),
            s3_bits: read_u32_le(buf, 12),
            dop_bits: read_u32_le(buf, 16),
            timestamp: read_u32_le(buf, 20),
        },
    )
}

/// Encodes a datagram into its 24-byte wire image.
pub fn encode_datagram(d: &StokesDatagram) -> (r: Vec<u8>)
    ensures
        r@ == datagram_bytes(*d),
        r@.len() == 24,
{
    let mut buf: Vec<u8> = Vec::new();
    push_u32_le(&mut buf, d.s0_bits);
    push_u32_le(&mut buf, d.s1_bits);
    push_u32_le(&mut buf, d.s2_bits);
    push_u32_le(&mut buf, d.s3_bits);
    push_u32_le(&mut buf, d.dop_bits);
    push_u32_le(&mut buf, d.timestamp);
    proof {
        assert(buf@ =~= datagram_bytes(*d));
    }
    buf
}

/// Decoding the wire image of any datagram yields that datagram back:
/// every field, the timestamp and the ignored degree of polarization
/// included, survives the trip through the wire format.
pub proof fn lemma_decode_inverts_encode(d: StokesDatagram)
    ensures
        decoded(datagram_bytes(d)) == d,
{
    let b = datagram_bytes(d);
    assert(b.subrange(0, 4) =~= le32_bytes(d.s0_bits));
    assert(b.subrange(4, 8) =~= le32_bytes(d.s1_bits));
    assert(b.subrange(8, 12) =~= le32_bytes(d.s2_bits));
    assert(b.subrange(12, 16) =~= le32_bytes(d.s3_bits));
    assert(b.subrange(16, 20) =~= le32_bytes(d.dop_bits));
    assert(b.subrange(20, 24) =~= le32_bytes(d.timestamp));
    lemma_le32_round_trip(d.s0_bits);
    lemma_le32_round_trip(d.s1_bits);
    lemma_le32_round_trip(d.s2_bits);
    lemma_le32_round_trip(d.s3_bits);
    lemma_le32_round_trip(d.dop_bits);
    lemma_le32_round_trip(d.timestamp);
}

/// Re-encoding the datagram decoded from any well-formed 24-byte buffer
/// reproduces the buffer byte for byte: decoding loses nothing.
pub proof fn lemma_encode_inverts_decode(b: Seq<u8>)
    requires
        b.len() == 24,
    ensures
        datagram_bytes(decoded(b)) == b,
{
    lemma_field_round_trip(b, 0);
    lemma_field_round_trip(b, 4);
    lemma_field_round_trip(b, 8);
    lemma_field_round_trip(b, 12);
    lemma_field_round_trip(b, 16);
    lemma_field_round_trip(b, 20);
    assert(datagram_bytes(decoded(b)) =~= b.subrange(0, 4) + b.subrange(4, 8) + b.subrange(8, 12)
        + b.subrange(12, 16) + b.subrange(16, 20) + b.subrange(20, 24));
    assert(b.subrange(0, 4) + b.subrange(4, 8) + b.subrange(8, 12) + b.subrange(12, 16)
        + b.subrange(16, 20) + b.subrange(20, 24) =~= b);
}

/// One aligned 32-bit field of a 24-byte buffer survives decode-then-encode.
proof fn lemma_field_round_trip(b: Seq<u8>, off: int)
    requires
        b.len() == 24,
        0 <= off <= 20,
    ensures
        le32_bytes(le32(b.subrange(off, off + 4))) == b.subrange(off, off + 4),
{
    assert(b.subrange(off, off + 4) =~= seq![b[off], b[off + 1], b[off + 2], b[off + 3]]);
    lemma_le32_bytes_round_trip(b[off], b[off + 1], b[off + 2], b[off + 3]);
    assert(le32_bytes(le32(b.subrange(off, off + 4))) =~= b.subrange(off, off + 4));
}

/// The fields forwarded downstream — the timestamp and the four Stokes
/// components — depend only on their own bytes: two datagrams that differ
/// at most in the degree-of-polarization field decode to the same
/// forwarded values.
pub proof fn lemma_forwarded_fields_ignore_dop(b1: Seq<u8>, b2: Seq<u8>)
    requires
        b1.len() == 24,
        b2.len() == 24,
        b1.subrange(0, 16) == b2.subrange(0, 16),
        b1.subrange(20, 24) == b2.subrange(20, 24),
    ensures
        decoded(b1).timestamp == decoded(b2).timestamp,
        decoded(b1).s0_bits == decoded(b2).s0_bits,
        decoded(b1).s1_bits == decoded(b2).s1_bits,
        decoded(b1).s2_bits == decoded(b2).s2_bits,
        decoded(b1).s3_bits == decoded(b2).s3_bits,
{
    assert(b1.subrange(0, 4) =~= b1.subrange(0, 16).subrange(0, 4));
    assert(b2.subrange(0, 4) =~= b2.subrange(0, 16).subrange(0, 4));
    assert(b1.subrange(4, 8) =~= b1.subrange(0, 16).subrange(4, 8));
    assert(b2.subrange(4, 8) =~= b2.subrange(0, 16).subrange(4, 8));
    assert(b1.subrange(8, 12) =~= b1.subrange(0, 16).subrange(8, 12));
    assert(b2.subrange(8, 12) =~= b2.subrange(0, 16).subrange(8, 12));
    assert(b1.subrange(12, 16) =~= b1.subrange(0, 16).subrange(12, 16));
    assert(b2.subrange(12, 16) =~= b2.subrange(0, 16).subrange(12, 16));
}

} // verus!
