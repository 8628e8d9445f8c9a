use samp_direct::bitstream::BitStream;
use samp_direct::error::SendError;
use samp_direct::packets::{ID_RPC, ID_TIMESTAMP, build_rpc_envelope, native_bit_length, parse_rpc_envelope};

#[test]
fn rejects_bit_lengths_that_overflow_native_i32() {
    assert_eq!(native_bit_length(i32::MAX as usize), Ok(i32::MAX));
    assert_eq!(native_bit_length(i32::MAX as usize + 1), Err(SendError::PayloadTooLarge));
}

#[test]
fn rpc_envelopes_round_trip_with_and_without_timestamps() {
    let payload = BitStream::from_bytes(vec![0x12, 0x34, 0x56]);

    for timestamp in [None, Some([1, 2, 3, 4])] {
        let encoded = build_rpc_envelope(42, &payload, timestamp).unwrap();
        let (id, decoded, decoded_timestamp) = parse_rpc_envelope(&encoded).unwrap();

        assert_eq!(id, 42);
        assert_eq!(decoded_timestamp, timestamp);
        assert_eq!(decoded.len_bits(), payload.len_bits());
        assert_eq!(decoded.as_bytes(), payload.as_bytes());
    }
}

#[test]
fn rpc_envelopes_preserve_partial_payload_bits() {
    let payload = BitStream::from_bytes_with_bits(vec![0b1010_0000], 3).unwrap();
    let encoded = build_rpc_envelope(7, &payload, None).unwrap();
    let (id, decoded, timestamp) = parse_rpc_envelope(&encoded).unwrap();

    assert_eq!(id, 7);
    assert_eq!(timestamp, None);
    assert_eq!(decoded.len_bits(), 3);
    assert_eq!(decoded.as_bytes(), &[0b1010_0000]);
}

#[test]
fn rpc_envelopes_reject_malformed_and_truncated_inputs() {
    assert!(matches!(parse_rpc_envelope(&[0]), Err(SendError::NativeCallFailed)));
    assert!(matches!(
        parse_rpc_envelope(&[ID_TIMESTAMP, 1, 2, 3, 4, 0]),
        Err(SendError::NativeCallFailed)
    ));

    let mut truncated = build_rpc_envelope(7, &BitStream::from_bytes(vec![0xAA]), None).unwrap();
    truncated.pop();
    assert!(matches!(parse_rpc_envelope(&truncated), Err(SendError::NativeCallFailed)));
}

#[test]
fn rpc_envelope_bytes_start_with_the_rpc_id() {
    let payload = BitStream::from_bytes(vec![0xFF]);
    let plain = build_rpc_envelope(9, &payload, None).unwrap();
    assert_eq!(plain[0], ID_RPC);
    assert_eq!(plain[1], 9);
    let stamped = build_rpc_envelope(9, &payload, Some([5, 6, 7, 8])).unwrap();
    assert_eq!(&stamped[..6], &[ID_TIMESTAMP, 5, 6, 7, 8, ID_RPC]);
    assert_eq!(stamped[6], 9);
}

#[test]
fn empty_rpc_payloads_round_trip() {
    let payload = BitStream::new();
    let encoded = build_rpc_envelope(1, &payload, None).unwrap();
    let (id, decoded, timestamp) = parse_rpc_envelope(&encoded).unwrap();
    assert_eq!(id, 1);
    assert_eq!(timestamp, None);
    assert_eq!(decoded.len_bits(), 0);
}

#[test]
fn bitstreams_read_back_what_was_written() {
    let mut stream = BitStream::new();
    stream.write_bool(true).unwrap();
    stream.write_u16(0xBEEF).unwrap();
    stream.write_i16(-2).unwrap();
    stream.write_u32(0x0102_0304).unwrap();
    stream.write_i32(-5).unwrap();
    stream.write_compressed_u32(7).unwrap();
    stream.write_compressed_u32(0x1234_5678).unwrap();
    stream.write_u8(0x5A).unwrap();
    assert_eq!(stream.read_bool(), Ok(true));
    assert_eq!(stream.read_u16(), Ok(0xBEEF));
    assert_eq!(stream.read_i16(), Ok(-2));
    assert_eq!(stream.read_u32(), Ok(0x0102_0304));
    assert_eq!(stream.read_i32(), Ok(-5));
    assert_eq!(stream.read_compressed_u32(), Ok(7));
    assert_eq!(stream.read_compressed_u32(), Ok(0x1234_5678));
    assert_eq!(stream.read_u8(), Ok(0x5A));
    assert_eq!(stream.remaining_bits(), 0);
    assert!(stream.read_bool().is_err());
}

#[test]
fn bitstream_bytes_pad_the_last_byte_with_zero_bits() {
    let stream = BitStream::from_bytes_with_bits(vec![0xFF], 3).unwrap();
    assert_eq!(stream.as_bytes(), vec![0b1110_0000]);
    assert_eq!(stream.len_bytes(), 1);
    assert!(BitStream::from_bytes_with_bits(vec![0xFF], 9).is_err());
}
