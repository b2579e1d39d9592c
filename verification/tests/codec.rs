//! Value codec: exact layouts, round trips, and failure on short buffers,
//! cross-checked against an independent little-endian reader.

use base_station::codec::{
    decode_i16, decode_u16, decode_u32, decode_u8, encode_i16, encode_u16, encode_u32, encode_u8,
    le_bytes_of,
};
use base_station::error::Error;
use byteorder::{ByteOrder, LittleEndian};

#[test]
fn u8_decode_reads_first_byte() {
    assert_eq!(decode_u8(&vec![0x2a]).unwrap(), 0x2a);
    assert_eq!(decode_u8(&vec![0x00, 0xff]).unwrap(), 0x00);
}

#[test]
fn u8_decode_fails_on_empty_buffer() {
    match decode_u8(&vec![]) {
        Err(Error::InvalidData(b)) => assert_eq!(b, Vec::<u8>::new()),
        other => panic!("expected InvalidData, got {:?}", other),
    }
}

#[test]
fn u16_decode_is_little_endian() {
    assert_eq!(decode_u16(&vec![0xe4, 0x0c]).unwrap(), 3300);
    assert_eq!(decode_u16(&vec![0xce, 0x0c]).unwrap(), 3278);
    assert_eq!(decode_u16(&vec![0xff, 0xff]).unwrap(), u16::MAX);
    assert_eq!(decode_u16(&vec![0x01, 0x00, 0x99]).unwrap(), 1);
}

#[test]
fn u16_decode_fails_on_short_buffer() {
    match decode_u16(&vec![0x07]) {
        Err(Error::InvalidData(b)) => assert_eq!(b, vec![0x07]),
        other => panic!("expected InvalidData, got {:?}", other),
    }
}

#[test]
fn i16_decode_is_signed_little_endian() {
    assert_eq!(decode_i16(&vec![0x64, 0x00]).unwrap(), 100);
    assert_eq!(decode_i16(&vec![0xce, 0xff]).unwrap(), -50);
    assert_eq!(decode_i16(&vec![0x00, 0x80]).unwrap(), i16::MIN);
    assert_eq!(decode_i16(&vec![0xff, 0x7f]).unwrap(), i16::MAX);
}

#[test]
fn u32_decode_is_little_endian() {
    assert_eq!(decode_u32(&vec![0x01, 0x00, 0x00, 0x00]).unwrap(), 1);
    assert_eq!(decode_u32(&vec![0x78, 0x56, 0x34, 0x12]).unwrap(), 0x12345678);
    assert_eq!(decode_u32(&vec![0xff, 0xff, 0xff, 0xff]).unwrap(), u32::MAX);
}

#[test]
fn u32_decode_fails_on_short_buffer() {
    match decode_u32(&vec![0x01, 0x02, 0x03]) {
        Err(Error::InvalidData(b)) => assert_eq!(b, vec![0x01, 0x02, 0x03]),
        other => panic!("expected InvalidData, got {:?}", other),
    }
}

#[test]
fn voltage_example_round_trips() {
    // 3.300 V is carried as 3300 mV.
    let encoded = encode_u16(3300);
    assert_eq!(encoded, vec![0xe4, 0x0c]);
    let decoded = decode_u16(&encoded).unwrap();
    assert_eq!(decoded, 3300);
    assert_eq!(decoded as f32 / 1000.0, 3.300);
}

#[test]
fn u8_round_trips_across_range() {
    for v in [0u8, 1, 0x7f, 0x80, 85, u8::MAX] {
        assert_eq!(decode_u8(&encode_u8(v)).unwrap(), v);
    }
}

#[test]
fn u16_round_trips_across_range() {
    for v in [0u16, 1, 0x7f, 0x80, 0xff, 0x100, 3300, 0x7fff, 0x8000, u16::MAX] {
        assert_eq!(decode_u16(&encode_u16(v)).unwrap(), v);
    }
}

#[test]
fn i16_round_trips_across_range() {
    for v in [i16::MIN, -3300, -100, -1, 0, 1, 100, 3300, i16::MAX] {
        assert_eq!(decode_i16(&encode_i16(v)).unwrap(), v);
    }
}

#[test]
fn u32_round_trips_across_range() {
    for v in [0u32, 1, 0xff, 0x100, 0xffff, 0x10000, 0xdeadbeef, u32::MAX] {
        assert_eq!(decode_u32(&encode_u32(v)).unwrap(), v);
    }
}

#[test]
fn status_clear_command_is_four_zero_bytes() {
    assert_eq!(encode_u32(0), vec![0x00, 0x00, 0x00, 0x00]);
}

#[test]
fn decode_agrees_with_independent_reader() {
    for bytes in [
        vec![0x00, 0x00, 0x00, 0x00],
        vec![0xe4, 0x0c, 0x99, 0x01],
        vec![0xff, 0xff, 0xff, 0x7f],
        vec![0x12, 0x80, 0xfe, 0xff],
    ] {
        assert_eq!(decode_u16(&bytes).unwrap(), LittleEndian::read_u16(&bytes));
        assert_eq!(decode_i16(&bytes).unwrap(), LittleEndian::read_i16(&bytes));
        assert_eq!(decode_u32(&bytes).unwrap(), LittleEndian::read_u32(&bytes));
    }
}

#[test]
fn encode_agrees_with_independent_writer() {
    for v in [0u32, 1, 0x1234, 0xdeadbeef, u32::MAX] {
        let mut expected = [0u8; 4];
        LittleEndian::write_u32(&mut expected, v);
        assert_eq!(encode_u32(v), expected.to_vec());
    }
}

#[test]
fn le_bytes_of_produces_base256_digits() {
    assert_eq!(le_bytes_of(0x0102, 4), vec![0x02, 0x01, 0x00, 0x00]);
    assert_eq!(le_bytes_of(0, 0), Vec::<u8>::new());
    let uuid: u128 = 0x89efdfcb_9661_888e_724e_c0a20f20f8a1;
    assert_eq!(
        le_bytes_of(uuid, 16),
        vec![
            0xa1, 0xf8, 0x20, 0x0f, 0xa2, 0xc0, 0x4e, 0x72, 0x8e, 0x88, 0x61, 0x96, 0xcb, 0xdf,
            0xef, 0x89
        ]
    );
}
