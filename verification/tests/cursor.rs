use pdb::common::{Error, ParseBuffer, RawString};

#[test]
fn take_borrows_and_advances() {
    let bytes = [1u8, 2, 3, 4, 5];
    let mut parse_buffer = ParseBuffer::new(&bytes);
    assert_eq!(parse_buffer.take(2).expect("take"), &[1, 2]);
    assert_eq!(parse_buffer.pos(), 2);
    assert_eq!(parse_buffer.take(3).expect("take"), &[3, 4, 5]);
    assert!(parse_buffer.is_empty());
}

#[test]
fn take_past_end_fails_without_moving() {
    let bytes = [1u8, 2, 3];
    let mut parse_buffer = ParseBuffer::new(&bytes);
    assert_eq!(parse_buffer.take(4), Err(Error::UnexpectedEof));
    assert_eq!(parse_buffer.pos(), 0);
    assert_eq!(parse_buffer.take(3).expect("take"), &[1, 2, 3]);
}

#[test]
fn parse_u16_is_little_endian() {
    let bytes = [0x34u8, 0x12, 0xFF, 0x00];
    let mut parse_buffer = ParseBuffer::new(&bytes);
    assert_eq!(parse_buffer.parse_u16().expect("u16"), 0x1234);
    assert_eq!(parse_buffer.parse_u16().expect("u16"), 0x00FF);
    assert_eq!(parse_buffer.parse_u16(), Err(Error::UnexpectedEof));
}

#[test]
fn parse_u32_is_little_endian() {
    let bytes = [0x78u8, 0x56, 0x34, 0x12, 0xFF, 0xFF, 0xFF, 0xFF];
    let mut parse_buffer = ParseBuffer::new(&bytes);
    assert_eq!(parse_buffer.parse_u32().expect("u32"), 0x12345678);
    assert_eq!(parse_buffer.parse_u32().expect("u32"), 0xFFFFFFFF);
}

#[test]
fn parse_u32_short_buffer_fails_without_moving() {
    let bytes = [0x01u8, 0x02, 0x03];
    let mut parse_buffer = ParseBuffer::new(&bytes);
    assert_eq!(parse_buffer.parse_u32(), Err(Error::UnexpectedEof));
    assert_eq!(parse_buffer.pos(), 0);
    assert_eq!(parse_buffer.len(), 3);
}

#[test]
fn raw_string_compares_by_bytes() {
    let left = RawString::from(&b"abc"[..]);
    let right_storage = b"abc".to_vec();
    let right = RawString::from(right_storage.as_slice());
    assert_eq!(left, right);
    assert_ne!(left, RawString::from(&b"abd"[..]));
    assert_ne!(left, RawString::from(&b"ab"[..]));
    assert_eq!(left.as_bytes(), b"abc");
    assert_eq!(left.len(), 3);
    assert!(!left.is_empty());
}
