use kafka_wire::codec::push_compact_string;
use kafka_wire::codec::push_u16_be;
use kafka_wire::codec::push_u32_be;
use kafka_wire::codec::push_u8;
use kafka_wire::codec::read_compact_string;
use kafka_wire::codec::read_u16_be;
use kafka_wire::codec::read_u32_be;

#[test]
fn u16_big_endian_bytes_are_exact() {
    let mut out: Vec<u8> = Vec::new();
    push_u16_be(&mut out, 0x1234);
    assert_eq!(out, vec![0x12, 0x34]);
    push_u16_be(&mut out, 0);
    assert_eq!(out, vec![0x12, 0x34, 0, 0]);
    push_u16_be(&mut out, 0xFFFF);
    assert_eq!(out, vec![0x12, 0x34, 0, 0, 0xFF, 0xFF]);
}

#[test]
fn u32_big_endian_bytes_are_exact() {
    let mut out: Vec<u8> = Vec::new();
    push_u32_be(&mut out, 0x01020304);
    assert_eq!(out, vec![1, 2, 3, 4]);
    push_u32_be(&mut out, 0xFFFFFFFF);
    assert_eq!(out[4..8], [0xFF, 0xFF, 0xFF, 0xFF]);
}

#[test]
fn u16_read_inverts_push() {
    let mut out: Vec<u8> = Vec::new();
    push_u16_be(&mut out, 54321);
    assert_eq!(read_u16_be(&out, 0), 54321);
}

#[test]
fn u32_read_inverts_push() {
    let mut out: Vec<u8> = Vec::new();
    push_u8(&mut out, 9);
    push_u32_be(&mut out, 3_203_386_110);
    assert_eq!(read_u32_be(&out, 1), 3_203_386_110);
}

#[test]
fn compact_string_round_trip_short_name() {
    let mut enc: Vec<u8> = Vec::new();
    push_compact_string(&mut enc, b"hello");
    assert_eq!(enc, vec![6, b'h', b'e', b'l', b'l', b'o']);
    assert_eq!(read_compact_string(&enc, 0), b"hello".to_vec());
}

#[test]
fn compact_string_round_trip_empty_name() {
    let mut enc: Vec<u8> = Vec::new();
    push_compact_string(&mut enc, b"");
    assert_eq!(enc, vec![1]);
    assert_eq!(read_compact_string(&enc, 0), Vec::<u8>::new());
}

#[test]
fn compact_string_round_trip_largest_name() {
    let name = vec![0xABu8; 254];
    let mut enc: Vec<u8> = Vec::new();
    push_compact_string(&mut enc, &name);
    assert_eq!(enc.len(), 255);
    assert_eq!(enc[0], 255);
    assert_eq!(read_compact_string(&enc, 0), name);
}

#[test]
fn compact_string_zero_length_byte_is_absent() {
    let buf = vec![0u8, b'x', b'y'];
    assert_eq!(read_compact_string(&buf, 0), Vec::<u8>::new());
}

#[test]
fn compact_string_past_end_is_empty() {
    let buf = vec![5u8, b'a'];
    assert_eq!(read_compact_string(&buf, 0), Vec::<u8>::new());
    assert_eq!(read_compact_string(&buf, 7), Vec::<u8>::new());
}
