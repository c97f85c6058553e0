//! Egress wire codec: sequence-numbered amplitude blocks.
//!
//! A block datagram is a 10-byte little-endian header — sequence number
//! (32 bits), sample rate in hertz (32 bits), block size (16 bits, the
//! sample count) — followed by one little-endian 32-bit word per sample.
//! On the wire each sample word is an IEEE-754 single-precision bit
//! pattern; the encoder takes the patterns as `u32` and never interprets
//! them. The sequence number starts at zero and, after every successfully
//! framed block, increments with wraparound, so the receiver can detect
//! gaps, reordering and drops.

use vstd::prelude::*;

use crate::bytes::{le16_bytes, le32_bytes, push_u16_le, push_u32_le};
use crate::errors::EgressError;

verus! {

/// Size in bytes of the block header.
pub const HEADER_SIZE: usize = 10;

/// Largest sample count whose block size fits the 16-bit field.
pub const MAX_BLOCK_SAMPLES: usize = 65535;

/// The wire image of the payload: each sample word in order, as four
/// little-endian bytes.
pub open spec fn payload_bytes(samples: Seq<u32>) -> Seq<u8>
    decreases samples.len(),
{
    if samples.len() == 0 {
        Seq::empty()
    } else {
        payload_bytes(samples.drop_last()) + le32_bytes(samples.last())
    }
}

/// The wire image of a whole block: header, then payload.
pub open spec fn block_bytes(sequence_nr: u32, sample_rate_hz: u32, samples: Seq<u32>) -> Seq<u8>
    recommends
        samples.len() <= 65535,
{
    le32_bytes(sequence_nr) + le32_bytes(sample_rate_hz) + le16_bytes(samples.len() as u16)
        + payload_bytes(samples)
}

/// The payload grows by four bytes per sample.
pub proof fn lemma_payload_len(samples: Seq<u32>)
    ensures
        payload_bytes(samples).len() == 4 * samples.len(),
    decreases samples.len(),
{
    if samples.len() > 0 {
        lemma_payload_len(samples.drop_last());
    }
}

/// Framer for egress blocks. One instance per stream; the sample rate is
/// fixed at construction and the sequence number advances once per framed
/// block.
pub struct AudioBlockEncoder {
    pub sequence_nr: u32,
    pub sample_rate_hz: u32,
}

impl AudioBlockEncoder {
    /// A fresh framer: sequence numbering starts at zero.
    pub fn new(sample_rate_hz: u32) -> (s: Self)
        ensures
            s.sequence_nr == 0,
            s.sample_rate_hz == sample_rate_hz,
    {
        AudioBlockEncoder { sequence_nr: 0, sample_rate_hz }
    }

    /// Frames one block under the current sequence number and advances the
    /// number with wraparound. A block of more than 65535 samples cannot be
    /// framed — its size does not fit the 16-bit field — and is rejected
    /// without touching the sequence number.
    pub fn encode_block(&mut self, samples: &Vec<u32>) -> (r: Result<Vec<u8>, EgressError>)
        ensures
            samples@.len() <= 65535 ==> ({
                &&& r is Ok
                &&& r->Ok_0@ == block_bytes(
                    old(self).sequence_nr,
                    old(self).sample_rate_hz,
                    samples@,
                )
                &&& r->Ok_0@.len() == 10 + 4 * samples@.len()
                &&& final(self).sequence_nr == (old(self).sequence_nr + 1) % 0x1_0000_0000
                &&& final(self).sample_rate_hz == old(self).sample_rate_hz
            }),
            samples@.len() > 65535 ==> r == Err::<Vec<u8>, EgressError>(
                (EgressError::BlockTooLarge { len: samples@.len() as usize }),
            ) && *final(self) == *old(self),
    {
        if samples.len() > MAX_BLOCK_SAMPLES {
            return Err(EgressError::BlockTooLarge { len: samples.len() });
        }
        let mut buf: Vec<u8> = Vec::new();
        push_u32_le(&mut buf, self.sequence_nr);
        push_u32_le(&mut buf, self.sample_rate_hz);
        push_u16_le(&mut buf, samples.len() as u16);
        let ghost header = buf@;
        proof {
            assert(header + payload_bytes(samples@.take(0)) =~= header);
        }
        let mut i: usize = 0;
        while i < samples.len()
            invariant
                i <= samples@.len(),
                buf@ == header + payload_bytes(samples@.take(i as int)),
            decreases samples@.len() - i,
        {
            push_u32_le(&mut buf, samples[i]);
            proof {
                assert(samples@.take(i + 1).drop_last() =~= samples@.take(i as int));
                assert(samples@.take(i + 1).last() == samples@[i as int]);
            }
            i = i + 1;
        }
        proof {
            assert(samples@.take(samples@.len() as int) =~= samples@);
            assert(buf@ =~= block_bytes(self.sequence_nr, self.sample_rate_hz, samples@));
            lemma_payload_len(samples@);
        }
        let framed = buf;
        if self.sequence_nr == 0xffff_ffff {
            self.sequence_nr = 0;
        } else {
            self.sequence_nr = self.sequence_nr + 1;
        }
        Ok(framed)
    }
}

} // verus!
