use byteorder::{BigEndian, WriteBytesExt};
use rafka_clients::fixed_width::read_int_be;
use std::io::Cursor;
use rafka_clients::cursor::ByteCursor;
use rafka_clients::error::VarintError;
use rafka_clients::widened::{
    read_unsigned_int, read_unsigned_int_from_pos, write_unsigned_int,
    write_unsigned_int_from_pos, write_unsigned_int_le,
};

#[test]
fn test_read_and_write_unsigned_int() {
    let mut buffer = Vec::new();
    let write_value: i64 = 133444;
    write_unsigned_int(&mut buffer, write_value).unwrap();
    let mut cursor = ByteCursor::new(buffer);
    let read_value = read_unsigned_int(&mut cursor).unwrap();
    assert_eq!(write_value, read_value);
}

#[test]
fn mod_test_write_unsigned_int_le() {
    let value1 = 0x04030201;
    let mut buffer1 = Vec::new();
    write_unsigned_int_le(&mut buffer1, value1).unwrap();
    write_unsigned_int_le(&mut buffer1, value1).unwrap();
    assert_eq!(buffer1, vec![0x01, 0x02, 0x03, 0x04, 0x01, 0x02, 0x03, 0x04]);

    let value2 = -185339151;
    let mut buffer2 = Vec::new();
    write_unsigned_int_le(&mut buffer2, value2).unwrap();
    assert_eq!(buffer2, vec![0xf1, 0xf2, 0xf3, 0xf4]);
}

#[test]
fn widened_reads_are_never_negative() {
    let mut buffer = vec![0u8; 6];
    write_unsigned_int_from_pos(&mut buffer, 1, -1).unwrap();
    assert_eq!(buffer, vec![0, 0xFF, 0xFF, 0xFF, 0xFF, 0]);
    assert_eq!(read_unsigned_int_from_pos(&buffer, 1), Ok(0xFFFF_FFFF));
    assert_eq!(read_unsigned_int_from_pos(&buffer, 3), Err(VarintError::OutOfRange));
    assert_eq!(write_unsigned_int_from_pos(&mut buffer, 3, 5), Err(VarintError::OutOfRange));
    let mut out = Vec::new();
    write_unsigned_int(&mut out, 0x1_0000_0005).unwrap();
    assert_eq!(out, vec![0, 0, 0, 5]);
    let mut cursor = ByteCursor::new(vec![1, 2, 3]);
    assert_eq!(read_unsigned_int(&mut cursor), Err(VarintError::ShortRead));
}

#[test]
fn test_read_int() {
    let values: [i32; 11] = [
        0,
        1,
        -1,
        i8::MAX as i32,
        i16::MAX as i32,
        2 * i16::MAX as i32,
        i32::MAX / 2,
        i32::MIN / 2,
        i32::MAX,
        i32::MIN,
        i32::MAX,
    ];
    let mut buffer = vec![0u8; 4 * values.len()];
    let mut cursor = Cursor::new(&mut buffer);
    for (i, &value) in values.iter().enumerate() {
        cursor.set_position((i * 4) as u64);
        cursor.write_i32::<BigEndian>(value).unwrap();
        let read_value = read_int_be(cursor.get_ref(), i * 4).unwrap();
        assert_eq!(value, read_value, "Written value should match read value.");
    }
}
