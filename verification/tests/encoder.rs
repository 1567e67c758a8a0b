use chronicle_cql::column::ColumnDecoder;
use chronicle_cql::decoder::{read_bytes, read_cell, FrameError};
use chronicle_cql::encoder::{ColumnEncoder, Null, Unset, NULL_VALUE, UNSET_VALUE};
use chronicle_cql::inet::{IpAddr, Ipv4Addr, Ipv6Addr};
use chronicle_cql::value::{ColumnKind, Value};

fn cell<T: ColumnEncoder>(value: T) -> Vec<u8> {
    let mut buffer = Vec::new();
    value.encode(&mut buffer);
    buffer
}

#[test]
fn i64_is_eight_bytes_big_endian() {
    assert_eq!(cell(0x0102030405060708i64), vec![0, 0, 0, 8, 1, 2, 3, 4, 5, 6, 7, 8]);
    assert_eq!(cell(-1i64), vec![0, 0, 0, 8, 255, 255, 255, 255, 255, 255, 255, 255]);
    assert_eq!(cell(i64::MIN), vec![0, 0, 0, 8, 128, 0, 0, 0, 0, 0, 0, 0]);
}

#[test]
fn u64_is_eight_bytes_big_endian() {
    assert_eq!(cell(u64::MAX), vec![0, 0, 0, 8, 255, 255, 255, 255, 255, 255, 255, 255]);
    assert_eq!(cell(258u64), vec![0, 0, 0, 8, 0, 0, 0, 0, 0, 0, 1, 2]);
}

#[test]
fn i32_and_u32_are_four_bytes() {
    assert_eq!(cell(1i32), vec![0, 0, 0, 4, 0, 0, 0, 1]);
    assert_eq!(cell(-2i32), vec![0, 0, 0, 4, 255, 255, 255, 254]);
    assert_eq!(cell(0xdeadbeefu32), vec![0, 0, 0, 4, 0xde, 0xad, 0xbe, 0xef]);
}

#[test]
fn i16_and_u16_are_two_bytes() {
    assert_eq!(cell(-32768i16), vec![0, 0, 0, 2, 128, 0]);
    assert_eq!(cell(513u16), vec![0, 0, 0, 2, 2, 1]);
}

#[test]
fn i8_u8_and_bool_are_one_byte() {
    assert_eq!(cell(-1i8), vec![0, 0, 0, 1, 255]);
    assert_eq!(cell(7u8), vec![0, 0, 0, 1, 7]);
    assert_eq!(cell(true), vec![0, 0, 0, 1, 1]);
    assert_eq!(cell(false), vec![0, 0, 0, 1, 0]);
}

#[test]
fn text_declares_its_byte_length() {
    assert_eq!(cell("abc"), vec![0, 0, 0, 3, b'a', b'b', b'c']);
    assert_eq!(cell(String::from("é")), vec![0, 0, 0, 2, 0xc3, 0xa9]);
    assert_eq!(cell(""), vec![0, 0, 0, 0]);
}

#[test]
fn bytes_declare_their_length() {
    let blob: &[u8] = &[9, 8, 7];
    assert_eq!(cell(blob), vec![0, 0, 0, 3, 9, 8, 7]);
    assert_eq!(cell(vec![1u8, 2]), vec![0, 0, 0, 2, 1, 2]);
}

#[test]
fn null_and_unset_write_only_the_sentinel() {
    assert_eq!(cell(Null), vec![255, 255, 255, 255]);
    assert_eq!(cell(Unset), vec![255, 255, 255, 254]);
    assert_eq!(cell(NULL_VALUE), vec![255, 255, 255, 255]);
    assert_eq!(cell(UNSET_VALUE), vec![255, 255, 255, 254]);
    assert_eq!(cell(Value::Null).len(), 4);
    assert_eq!(cell(Value::Unset).len(), 4);
    assert_eq!(i32::from_be_bytes([255, 255, 255, 255]), -1);
    assert_eq!(i32::from_be_bytes([255, 255, 255, 254]), -2);
}

#[test]
fn encode_appends_to_what_is_there() {
    let mut buffer = vec![42u8];
    7u16.encode(&mut buffer);
    assert_eq!(buffer, vec![42, 0, 0, 0, 2, 0, 7]);
}

#[test]
fn ipv4_round_trips_with_length_four() {
    let address = Ipv4Addr::new(127, 0, 0, 1);
    let bytes = cell(address);
    assert_eq!(bytes, vec![0, 0, 0, 4, 127, 0, 0, 1]);
    assert_eq!(read_cell(&bytes, 0), Ok(Some((4, 4))));
    assert_eq!(Ipv4Addr::decode(&bytes, 4, 4), Ok(address));
    assert_eq!(IpAddr::decode(&bytes, 4, 4), Ok(IpAddr::V4(address)));
    assert_eq!(cell(IpAddr::V4(address)), bytes);
}

#[test]
fn ipv6_round_trips_with_length_sixteen() {
    let octets = [0x20, 0x01, 0x0d, 0xb8, 0, 0, 0, 0, 0, 0, 0, 0, 0, 0, 0, 1];
    let address = Ipv6Addr::new(octets);
    let bytes = cell(address);
    assert_eq!(bytes.len(), 20);
    assert_eq!(&bytes[..4], &[0, 0, 0, 16]);
    assert_eq!(&bytes[4..], &octets);
    assert_eq!(read_cell(&bytes, 0), Ok(Some((4, 16))));
    assert_eq!(Ipv6Addr::decode(&bytes, 4, 16), Ok(address));
    assert_eq!(IpAddr::decode(&bytes, 4, 16), Ok(IpAddr::V6(address)));
    assert_eq!(cell(IpAddr::V6(address)), bytes);
    assert_eq!(address.octets(), octets);
}

#[test]
fn address_of_wrong_width_is_a_mismatch() {
    let bytes = [1u8, 2, 3, 4, 5];
    assert_eq!(Ipv4Addr::decode(&bytes, 0, 5), Err(FrameError::SchemaMismatch));
    assert_eq!(Ipv6Addr::decode(&bytes, 0, 4), Err(FrameError::SchemaMismatch));
    assert_eq!(IpAddr::decode(&bytes, 0, 5), Err(FrameError::SchemaMismatch));
    assert_eq!(IpAddr::decode(&bytes, 2, 4), Err(FrameError::TruncatedFrame));
}

fn round_trip<T: ColumnEncoder + ColumnDecoder + PartialEq + std::fmt::Debug + Clone>(value: T) {
    let mut buffer = vec![0xaau8, 0xbb];
    value.encode(&mut buffer);
    buffer.push(0xcc);
    let (start, length) = read_cell(&buffer, 2).unwrap().unwrap();
    assert_eq!(start, 6);
    assert_eq!(start + length, buffer.len() - 1);
    assert_eq!(T::decode(&buffer, start, length), Ok(value));
}

#[test]
fn every_scalar_round_trips() {
    for v in [i64::MIN, -1, 0, 1, 0x0102030405060708, i64::MAX] {
        round_trip(v);
    }
    for v in [0u64, 1, 0xffff_ffff, 0x1_0000_0000, u64::MAX] {
        round_trip(v);
    }
    for v in [i32::MIN, -1, 0, 1, 65536, i32::MAX] {
        round_trip(v);
    }
    for v in [0u32, 255, 256, 0x8000_0000, u32::MAX] {
        round_trip(v);
    }
    for v in [i16::MIN, -1, 0, 255, 256, i16::MAX] {
        round_trip(v);
    }
    for v in [0u16, 255, 256, u16::MAX] {
        round_trip(v);
    }
    for v in [i8::MIN, -1, 0, 1, i8::MAX] {
        round_trip(v);
    }
    for v in [0u8, 1, 127, 128, 255] {
        round_trip(v);
    }
    round_trip(true);
    round_trip(false);
    round_trip(String::from(""));
    round_trip(String::from("abc123"));
    round_trip(String::from("grüße, 世界 🌍"));
    round_trip(Vec::<u8>::new());
    round_trip(vec![0u8, 255, 1, 254]);
}

#[test]
fn wrong_width_is_a_mismatch() {
    let bytes = [0u8; 8];
    assert_eq!(i64::decode(&bytes, 0, 4), Err(FrameError::SchemaMismatch));
    assert_eq!(u64::decode(&bytes, 0, 7), Err(FrameError::SchemaMismatch));
    assert_eq!(i32::decode(&bytes, 0, 8), Err(FrameError::SchemaMismatch));
    assert_eq!(u32::decode(&bytes, 0, 0), Err(FrameError::SchemaMismatch));
    assert_eq!(i16::decode(&bytes, 0, 1), Err(FrameError::SchemaMismatch));
    assert_eq!(u16::decode(&bytes, 0, 4), Err(FrameError::SchemaMismatch));
    assert_eq!(i8::decode(&bytes, 0, 2), Err(FrameError::SchemaMismatch));
    assert_eq!(u8::decode(&bytes, 0, 0), Err(FrameError::SchemaMismatch));
    assert_eq!(bool::decode(&bytes, 0, 2), Err(FrameError::SchemaMismatch));
    assert_eq!(bool::decode(&[2u8], 0, 1), Err(FrameError::SchemaMismatch));
}

#[test]
fn payload_past_the_end_is_truncated() {
    let bytes = [0u8; 8];
    assert_eq!(i64::decode(&bytes, 1, 8), Err(FrameError::TruncatedFrame));
    assert_eq!(i64::decode(&bytes, 9, 0), Err(FrameError::TruncatedFrame));
    assert_eq!(String::decode(&bytes, 4, 5), Err(FrameError::TruncatedFrame));
    assert_eq!(Vec::<u8>::decode(&bytes, usize::MAX, 2), Err(FrameError::TruncatedFrame));
    assert_eq!(Vec::<u8>::decode(&bytes, 8, 0), Ok(vec![]));
}

#[test]
fn text_must_be_utf8() {
    let good = [b'o', b'k', 0xc3, 0xa9];
    assert_eq!(String::decode(&good, 0, 4), Ok(String::from("oké")));
    assert_eq!(String::decode(&good, 0, 2), Ok(String::from("ok")));
    // cut in the middle of a character
    assert_eq!(String::decode(&good, 0, 3), Err(FrameError::SchemaMismatch));
    let bad = [0xffu8, 0xfe];
    assert_eq!(String::decode(&bad, 0, 2), Err(FrameError::SchemaMismatch));
    match Value::decode(ColumnKind::Text, &bad, 0, 2) {
        Err(e) => assert_eq!(e, FrameError::SchemaMismatch),
        Ok(_) => panic!("ill-formed text was accepted"),
    }
}

#[test]
fn optional_blob_is_read_with_its_sentinel() {
    assert_eq!(read_bytes(&[0, 0, 0, 2, 7, 8, 9], 0), Ok(Some(vec![7, 8])));
    assert_eq!(read_bytes(&[1, 0, 0, 0, 0], 1), Ok(Some(vec![])));
    assert_eq!(read_bytes(&[255, 255, 255, 255, 1], 0), Ok(None));
    assert_eq!(read_bytes(&[255, 255, 255, 254], 0), Err(FrameError::SchemaMismatch));
    assert_eq!(read_bytes(&[128, 0, 0, 0], 0), Err(FrameError::SchemaMismatch));
    assert_eq!(read_bytes(&[0, 0, 0, 3, 1, 2], 0), Err(FrameError::TruncatedFrame));
    assert_eq!(read_bytes(&[0, 0, 0], 0), Err(FrameError::TruncatedFrame));
    assert_eq!(read_bytes(&[0, 0, 0, 0], 1), Err(FrameError::TruncatedFrame));
    assert_eq!(read_bytes(&[0, 0, 0, 0], usize::MAX), Err(FrameError::TruncatedFrame));
    assert_eq!(read_bytes(&[127, 255, 255, 255, 0], 0), Err(FrameError::TruncatedFrame));
}
