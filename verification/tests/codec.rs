//! Byte-level codec behaviour: varints, the legacy length-prefix
//! correction, and envelope parsing.

use auxin::proto::{fix_protobuf_buf, varint_read, varint_write};
use auxin::receiver::read_envelope_from_bin;

#[test]
fn varint_single_byte_values() {
    assert_eq!(varint_write(0), vec![0x00]);
    assert_eq!(varint_write(1), vec![0x01]);
    assert_eq!(varint_write(127), vec![0x7F]);
}

#[test]
fn varint_multi_byte_values() {
    assert_eq!(varint_write(128), vec![0x80, 0x01]);
    assert_eq!(varint_write(300), vec![0xAC, 0x02]);
    assert_eq!(varint_write(u64::MAX), vec![
        0xFF, 0xFF, 0xFF, 0xFF, 0xFF, 0xFF, 0xFF, 0xFF, 0xFF, 0x01
    ]);
}

#[test]
fn varint_round_trips_through_read() {
    for v in [0u64, 1, 127, 128, 300, 16384, u64::MAX] {
        let mut buf = varint_write(v);
        buf.push(0x55);  // trailing byte must not disturb the decode
        let (value, consumed) = varint_read(buf.as_slice(), 0).unwrap();
        assert_eq!(value, v);
        assert_eq!(consumed, buf.len() - 1);
    }
}

#[test]
fn varint_read_rejects_truncation_and_overflow() {
    assert!(varint_read(&[], 0).is_none());
    assert!(varint_read(&[0x80], 0).is_none());
    assert!(varint_read(&[0x80, 0x80], 0).is_none());
    // One above u64::MAX.
    assert!(varint_read(
        &[0x80, 0x80, 0x80, 0x80, 0x80, 0x80, 0x80, 0x80, 0x80, 0x02],
        0
    )
    .is_none());
}

#[test]
fn fix_prepends_the_varint_length() {
    assert_eq!(fix_protobuf_buf(&[]), vec![0x00]);
    assert_eq!(fix_protobuf_buf(&[7, 8, 9]), vec![0x03, 7, 8, 9]);
    let long = vec![0xAA; 300];
    let fixed = fix_protobuf_buf(long.as_slice());
    assert_eq!(&fixed[..2], &[0xAC, 0x02]);
    assert_eq!(&fixed[2..], long.as_slice());
}

#[test]
fn empty_buffer_is_an_empty_envelope() {
    let env = read_envelope_from_bin(&[]).unwrap();
    assert_eq!(env.envelope_type, 0);
    assert_eq!(env.source_uuid, Vec::<u8>::new());
    assert_eq!(env.source_device, 0);
    assert_eq!(env.timestamp, 0);
    assert_eq!(env.content, Vec::<u8>::new());
}

#[test]
fn envelope_fields_are_extracted() {
    let mut buf: Vec<u8> = Vec::new();
    buf.extend_from_slice(&[0x08, 0x02]);  // field 1 (type): 2
    buf.extend_from_slice(&[0x28, 0xE8, 0x07]);  // field 5 (timestamp): 1000
    buf.extend_from_slice(&[0x38, 0x03]);  // field 7 (device): 3
    buf.extend_from_slice(&[0x5A, 0x02, 0x61, 0x62]);  // field 11 (uuid): "ab"
    buf.extend_from_slice(&[0x42, 0x02, 0x09, 0x0A]);  // field 8 (content)
    let env = read_envelope_from_bin(buf.as_slice()).unwrap();
    assert_eq!(env.envelope_type, 2);
    assert_eq!(env.timestamp, 1000);
    assert_eq!(env.source_device, 3);
    assert_eq!(env.source_uuid, vec![0x61, 0x62]);
    assert_eq!(env.content, vec![0x09, 0x0A]);
}

#[test]
fn unknown_fields_are_skipped() {
    let mut buf: Vec<u8> = Vec::new();
    buf.extend_from_slice(&[0x4A, 0x01, 0x78]);  // field 9, length-delimited
    buf.extend_from_slice(&[0x65, 1, 2, 3, 4]);  // field 12, fixed 32-bit
    buf.extend_from_slice(&[0x69, 1, 2, 3, 4, 5, 6, 7, 8]);  // field 13, fixed 64-bit
    buf.extend_from_slice(&[0x10, 0x2A]);  // field 2, varint
    buf.extend_from_slice(&[0x08, 0x05]);  // field 1 (type): 5
    let env = read_envelope_from_bin(buf.as_slice()).unwrap();
    assert_eq!(env.envelope_type, 5);
    assert_eq!(env.timestamp, 0);
}

#[test]
fn repeated_scalar_keeps_the_last_occurrence() {
    let buf = [0x08, 0x02, 0x08, 0x07];
    let env = read_envelope_from_bin(&buf).unwrap();
    assert_eq!(env.envelope_type, 7);
}

#[test]
fn malformed_buffers_are_rejected() {
    // Zero field number.
    assert!(read_envelope_from_bin(&[0x00]).is_err());
    // Truncated varint value.
    assert!(read_envelope_from_bin(&[0x08, 0x80]).is_err());
    // Length-delimited field longer than the buffer.
    assert!(read_envelope_from_bin(&[0x42, 0x05, 0x01]).is_err());
    // Deprecated group wire type.
    assert!(read_envelope_from_bin(&[0x0B]).is_err());
    // Truncated fixed-width scalar.
    assert!(read_envelope_from_bin(&[0x65, 1, 2]).is_err());
    // The diagnostic is the fixed decode message.
    let e = read_envelope_from_bin(&[0x00]).unwrap_err();
    assert_eq!(e, "malformed envelope");
}
