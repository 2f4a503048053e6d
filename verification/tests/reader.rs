use whirled::file::{ByteReader, ParseError, ReadFatBool, ReadString, ReadVec, WriteExt};

#[test]
fn little_endian_reads_advance_in_order() {
    let mut r = ByteReader::new(vec![0x01, 0x02, 0x03, 0x04, 0xAA, 0xBB, 0x7F]);
    assert_eq!(r.read_u32_le(), Ok(0x04030201));
    assert_eq!(r.read_u16_le(), Ok(0xBBAA));
    assert_eq!(r.read_u8(), Ok(0x7F));
    assert!(r.is_empty());
}

#[test]
fn reads_past_the_end_fail_and_leave_position() {
    let mut r = ByteReader::new(vec![0x01, 0x02]);
    assert_eq!(r.read_u32_le(), Err(ParseError::UnexpectedEof));
    assert_eq!(r.tell(), 0);
    assert_eq!(r.read_u16_le(), Ok(0x0201));
    assert_eq!(r.read_u8(), Err(ParseError::UnexpectedEof));
}

#[test]
fn sized_string_stops_at_the_first_nul() {
    let mut r = ByteReader::new(vec![b'a', b'b', 0, b'z', b'x', b'y']);
    let s = r.read_sized_string(4).unwrap();
    assert_eq!(s, b"ab".to_vec());
    // all four bytes were consumed, NUL and trailer included
    assert_eq!(r.tell(), 4);
    let s = r.read_sized_string(2).unwrap();
    assert_eq!(s, b"xy".to_vec());
}

#[test]
fn sized_string_needs_its_whole_field() {
    let mut r = ByteReader::new(vec![b'a', b'b']);
    assert_eq!(r.read_sized_string(4), Err(ParseError::UnexpectedEof));
    assert_eq!(r.tell(), 0);
}

#[test]
fn fat_bool_is_false_only_on_zero() {
    let mut r = ByteReader::new(vec![0, 0, 0, 0, 1, 0, 0, 0, 7, 0, 0, 0]);
    assert_eq!(r.read_fat_bool(), Ok(false));
    assert_eq!(r.read_fat_bool(), Ok(true));
    assert_eq!(r.read_fat_bool(), Ok(true));
}

#[test]
fn read_up_to_truncates_at_the_end() {
    let mut r = ByteReader::new(vec![1, 2, 3]);
    assert_eq!(r.read_up_to(2), vec![1, 2]);
    assert_eq!(r.read_up_to(5), vec![3]);
    assert_eq!(r.read_up_to(5), Vec::<u8>::new());
}

#[test]
fn read_exact_is_all_or_nothing() {
    let mut r = ByteReader::new(vec![1, 2, 3]);
    assert_eq!(r.read_exact(4), Err(ParseError::UnexpectedEof));
    assert_eq!(r.read_exact(3), Ok(vec![1, 2, 3]));
}

#[test]
fn seek_moves_the_position() {
    let mut r = ByteReader::new(vec![1, 2, 3, 4]);
    r.seek(2);
    assert_eq!(r.read_u8(), Ok(3));
    assert_eq!(r.data_len(), 4);
    assert_eq!(r.remaining_len(), 1);
}

#[test]
fn vector_bits_read_componentwise() {
    let mut bytes = Vec::new();
    for word in [1u32, 2, 3, 4, 5, 6, 7] {
        bytes.extend_from_slice(&word.to_le_bytes());
    }
    let mut r = ByteReader::new(bytes);
    let v3 = r.read_vec3_bits().unwrap();
    assert_eq!((v3.x, v3.y, v3.z), (1, 2, 3));
    let v4 = r.read_vec4_bits().unwrap();
    assert_eq!((v4.x, v4.y, v4.z, v4.w), (4, 5, 6, 7));
    assert_eq!(r.read_vec3_bits(), Err(ParseError::UnexpectedEof));
}

#[test]
fn written_fields_read_back() {
    let mut out: Vec<u8> = Vec::new();
    out.write_u32_le(0xAABBCCDD);
    out.write_u16_le(0x1234);
    out.write_string(&b"abc".to_vec(), 8).unwrap();
    assert_eq!(out.len(), 4 + 2 + 8);
    let mut r = ByteReader::new(out);
    assert_eq!(r.read_u32_le(), Ok(0xAABBCCDD));
    assert_eq!(r.read_u16_le(), Ok(0x1234));
    assert_eq!(r.read_sized_string(8), Ok(b"abc".to_vec()));
    assert!(r.is_empty());
}

#[test]
fn overlong_string_field_is_rejected_and_writes_nothing() {
    let mut out: Vec<u8> = vec![9];
    assert_eq!(out.write_string(&b"too long".to_vec(), 4), Err(ParseError::InvalidData));
    assert_eq!(out, vec![9]);
    assert_eq!(out.write_string(&b"full".to_vec(), 4), Ok(()));
    assert_eq!(out, vec![9, b'f', b'u', b'l', b'l']);
}
