use signal_processing::egress::AudioBlockEncoder;
use signal_processing::errors::{EgressError, IngestError};
use signal_processing::ingress::{decode_datagram, encode_datagram, StokesDatagram};

fn datagram_from_floats(s0: f32, s1: f32, s2: f32, s3: f32, dop: f32, timestamp: u32) -> Vec<u8> {
    let mut buf = Vec::new();
    buf.extend_from_slice(&s0.to_le_bytes());
    buf.extend_from_slice(&s1.to_le_bytes());
    buf.extend_from_slice(&s2.to_le_bytes());
    buf.extend_from_slice(&s3.to_le_bytes());
    buf.extend_from_slice(&dop.to_le_bytes());
    buf.extend_from_slice(&timestamp.to_le_bytes());
    buf
}

#[test]
fn ingress_decodes_fields_at_documented_offsets() {
    let buf = datagram_from_floats(2.0, 0.5, -0.25, 0.125, 0.9, 0xDEAD_BEEF);
    let d = decode_datagram(&buf).unwrap();
    assert_eq!(d.s0_bits, 2.0f32.to_bits());
    assert_eq!(d.s1_bits, 0.5f32.to_bits());
    assert_eq!(d.s2_bits, (-0.25f32).to_bits());
    assert_eq!(d.s3_bits, 0.125f32.to_bits());
    assert_eq!(d.dop_bits, 0.9f32.to_bits());
    assert_eq!(d.timestamp, 0xDEAD_BEEF);
    // The normalized triple recomputed downstream comes out of these bits.
    let s0 = f32::from_bits(d.s0_bits) as f64;
    assert_eq!(f32::from_bits(d.s1_bits) as f64 / s0, 0.25);
    assert_eq!(f32::from_bits(d.s2_bits) as f64 / s0, -0.125);
    assert_eq!(f32::from_bits(d.s3_bits) as f64 / s0, 0.0625);
}

#[test]
fn ingress_round_trips_any_valid_datagram() {
    let buf = datagram_from_floats(1.5, -3.25, 0.75, 42.0, 0.125, 7);
    let d = decode_datagram(&buf).unwrap();
    let again = encode_datagram(&d);
    assert_eq!(again, buf);

    let d2 = StokesDatagram {
        s0_bits: 0x0102_0304,
        s1_bits: 0,
        s2_bits: u32::MAX,
        s3_bits: 0x8000_0000,
        dop_bits: 0x7F80_0001,
        timestamp: u32::MAX,
    };
    let bytes = encode_datagram(&d2);
    assert_eq!(decode_datagram(&bytes).unwrap(), d2);
}

#[test]
fn ingress_forwarded_fields_ignore_dop() {
    let with_dop = datagram_from_floats(2.0, 0.5, -0.25, 0.125, 0.77, 99);
    let without_dop = datagram_from_floats(2.0, 0.5, -0.25, 0.125, -123.5, 99);
    let a = decode_datagram(&with_dop).unwrap();
    let b = decode_datagram(&without_dop).unwrap();
    assert_eq!(a.timestamp, b.timestamp);
    assert_eq!(a.s0_bits, b.s0_bits);
    assert_eq!(a.s1_bits, b.s1_bits);
    assert_eq!(a.s2_bits, b.s2_bits);
    assert_eq!(a.s3_bits, b.s3_bits);
    assert_ne!(a.dop_bits, b.dop_bits);
}

#[test]
fn ingress_rejects_short_datagram() {
    let buf = vec![0u8; 23];
    assert_eq!(
        decode_datagram(&buf),
        Err(IngestError::SchemaViolation { size: 23 })
    );
}

#[test]
fn ingress_rejects_long_datagram() {
    let mut buf = datagram_from_floats(1.0, 0.0, 0.0, 0.0, 0.0, 1);
    buf.push(0);
    assert_eq!(
        decode_datagram(&buf),
        Err(IngestError::SchemaViolation { size: 25 })
    );
}

#[test]
fn egress_block_matches_documented_layout() {
    let mut encoder = AudioBlockEncoder::new(16000);
    let samples = vec![1.0f32.to_bits(), (-1.0f32).to_bits()];
    let bytes = encoder.encode_block(&samples).unwrap();
    let expected_header = [0x00, 0x00, 0x00, 0x00, 0x80, 0x3E, 0x00, 0x00, 0x02, 0x00];
    assert_eq!(&bytes[..10], &expected_header);
    let expected_payload = [0x00, 0x00, 0x80, 0x3F, 0x00, 0x00, 0x80, 0xBF];
    assert_eq!(&bytes[10..], &expected_payload);

    // A second block only advances the leading sequence-number bytes.
    let bytes2 = encoder.encode_block(&samples).unwrap();
    assert_eq!(&bytes2[..4], &[0x01, 0x00, 0x00, 0x00]);
    assert_eq!(&bytes2[4..], &bytes[4..]);
}

#[test]
fn egress_empty_block_is_header_only() {
    let mut encoder = AudioBlockEncoder::new(48000);
    let bytes = encoder.encode_block(&Vec::new()).unwrap();
    assert_eq!(bytes.len(), 10);
    assert_eq!(&bytes[8..10], &[0x00, 0x00]);
}

#[test]
fn egress_rejects_oversized_block_without_consuming_a_sequence_number() {
    let mut encoder = AudioBlockEncoder::new(16000);
    let oversized = vec![0u32; 65536];
    assert_eq!(
        encoder.encode_block(&oversized),
        Err(EgressError::BlockTooLarge { len: 65536 })
    );
    // The rejected call left the sequence number untouched.
    let bytes = encoder.encode_block(&vec![0u32]).unwrap();
    assert_eq!(&bytes[..4], &[0x00, 0x00, 0x00, 0x00]);
}

#[test]
fn egress_largest_block_is_framed() {
    let mut encoder = AudioBlockEncoder::new(16000);
    let samples = vec![0x3F80_0000u32; 65535];
    let bytes = encoder.encode_block(&samples).unwrap();
    assert_eq!(bytes.len(), 10 + 4 * 65535);
    assert_eq!(&bytes[8..10], &[0xFF, 0xFF]);
}

#[test]
fn egress_sequence_number_wraps() {
    let mut encoder = AudioBlockEncoder::new(16000);
    encoder.sequence_nr = u32::MAX;
    let bytes = encoder.encode_block(&Vec::new()).unwrap();
    assert_eq!(&bytes[..4], &[0xFF, 0xFF, 0xFF, 0xFF]);
    let bytes2 = encoder.encode_block(&Vec::new()).unwrap();
    assert_eq!(&bytes2[..4], &[0x00, 0x00, 0x00, 0x00]);
}
