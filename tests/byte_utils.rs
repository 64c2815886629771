use rafka_clients::cursor::ByteCursor;
use rafka_clients::error::VarintError;
use rafka_clients::fixed_width::{
    read_int_be, read_unsigned_int, read_unsigned_int_at, write_int_be, write_unsigned_int,
    write_unsigned_int_at, write_unsigned_int_le, write_unsigned_int_le_at,
};
use rafka_clients::varint::{
    read_unsigned_varint, read_unsigned_varint64, read_varint, read_varint64,
    write_unsigned_varint, write_unsigned_varint64, write_varint, write_varint64,
};
use rafka_clients::zigzag::{decode_zigzag32, decode_zigzag64, encode_zigzag32, encode_zigzag64};

fn assert_unsigned_varint_serde(value: u32, expected_encoding: &[u8]) {
    let mut buffer = Vec::new();
    write_unsigned_varint(value, &mut buffer).expect("Writing to a Vec should not fail");
    assert_eq!(
        expected_encoding,
        buffer.as_slice(),
        "Encoding mismatch for value {}",
        value
    );
    let mut cursor = ByteCursor::new(buffer.clone());
    let decoded_value =
        read_unsigned_varint(&mut cursor).expect("Reading from a cursor should not fail");
    assert_eq!(
        value, decoded_value,
        "Decoded value mismatch for value {}",
        value
    );
    assert_eq!(cursor.position(), buffer.len());
}

fn assert_varint_serde(value: i32, expected_encoding: &[u8]) {
    let mut buffer = Vec::new();
    write_varint(value, &mut buffer).expect("Writing to a Vec should not fail");
    assert_eq!(
        expected_encoding,
        buffer.as_slice(),
        "Encoding mismatch for value {}",
        value
    );
    let mut cursor = ByteCursor::new(buffer.clone());
    let decoded_value = read_varint(&mut cursor).expect("Reading from a cursor should not fail");
    assert_eq!(
        value, decoded_value,
        "Decoded value mismatch for value {}",
        value
    );
}

/// A plain decoder to hold the library's against: no byte budget but the
/// shift limit.
fn simple_read_u32(bytes: &[u8]) -> Result<u32, &'static str> {
    let mut value = 0u32;
    let mut i: u32 = 0;
    let mut idx = 0;
    loop {
        let b = *bytes.get(idx).ok_or("Failed to read byte")?;
        idx += 1;
        if (b & 0x80) == 0 {
            value |= (b as u32) << i;
            return Ok(value);
        } else {
            value |= ((b & 0x7F) as u32) << i;
            i += 7;
            if i > 28 {
                return Err("Invalid varint: exceeds 5 bytes");
            }
        }
    }
}

fn simple_read_u64(bytes: &[u8]) -> Result<u64, &'static str> {
    let mut value = 0u64;
    let mut i: u64 = 0;
    let mut idx = 0;
    loop {
        let b = *bytes.get(idx).ok_or("Failed to read byte")?;
        idx += 1;
        if (b & 0x80) == 0 {
            value |= (b as u64) << i;
            return Ok(value);
        } else {
            value |= ((b & 0x7F) as u64) << i;
            i += 7;
            if i > 63 {
                return Err("Invalid varint: exceeds 10 bytes");
            }
        }
    }
}

#[test]
fn test_unsigned_varint_serde() {
    assert_unsigned_varint_serde(0, &[0x0]);
    assert_unsigned_varint_serde(-1i32 as u32, &[0xFF, 0xFF, 0xFF, 0xFF, 0x0F]);
    assert_unsigned_varint_serde(1, &[0x01]);
    assert_unsigned_varint_serde(63, &[0x3F]);
    assert_unsigned_varint_serde(-64i32 as u32, &[0xC0, 0xFF, 0xFF, 0xFF, 0x0F]);
    assert_unsigned_varint_serde(64, &[0x40]);
    assert_unsigned_varint_serde(8191, &[0xFF, 0x3F]);
    assert_unsigned_varint_serde(-8192i32 as u32, &[0x80, 0xC0, 0xFF, 0xFF, 0x0F]);
    assert_unsigned_varint_serde(8192, &[0x80, 0x40]);
    assert_unsigned_varint_serde(-8193i32 as u32, &[0xFF, 0xBF, 0xFF, 0xFF, 0x0F]);
    assert_unsigned_varint_serde(1048575, &[0xFF, 0xFF, 0x3F]);
    assert_unsigned_varint_serde(1048576, &[0x80, 0x80, 0x40]);
    assert_unsigned_varint_serde(i32::MAX as u32, &[0xFF, 0xFF, 0xFF, 0xFF, 0x07]);
    assert_unsigned_varint_serde(i32::MIN as u32, &[0x80, 0x80, 0x80, 0x80, 0x08]);
}

#[test]
fn test_varint_serde() {
    assert_varint_serde(0, &[0x00]);
    assert_varint_serde(-1, &[0x01]);
    assert_varint_serde(1, &[0x02]);
    assert_varint_serde(63, &[0x7E]);
    assert_varint_serde(-64, &[0x7F]);
    assert_varint_serde(64, &[0x80, 0x01]);
    assert_varint_serde(-65, &[0x81, 0x01]);
    assert_varint_serde(8191, &[0xFE, 0x7F]);
    assert_varint_serde(-8192, &[0xFF, 0x7F]);
    assert_varint_serde(8192, &[0x80, 0x80, 0x01]);
    assert_varint_serde(-8193, &[0x81, 0x80, 0x01]);
    assert_varint_serde(1048575, &[0xFE, 0xFF, 0x7F]);
    assert_varint_serde(-1048576, &[0xFF, 0xFF, 0x7F]);
    assert_varint_serde(1048576, &[0x80, 0x80, 0x80, 0x01]);
    assert_varint_serde(-1048577, &[0x81, 0x80, 0x80, 0x01]);
    assert_varint_serde(134217727, &[0xFE, 0xFF, 0xFF, 0x7F]);
    assert_varint_serde(-134217728, &[0xFF, 0xFF, 0xFF, 0x7F]);
    assert_varint_serde(134217728, &[0x80, 0x80, 0x80, 0x80, 0x01]);
    assert_varint_serde(-134217729, &[0x81, 0x80, 0x80, 0x80, 0x01]);
    assert_varint_serde(i32::MAX, &[0xFE, 0xFF, 0xFF, 0xFF, 0x0F]);
    assert_varint_serde(i32::MIN, &[0xFF, 0xFF, 0xFF, 0xFF, 0x0F]);
}

#[test]
fn test_read_write_unsigned_int() {
    let mut buffer = Vec::with_capacity(4);
    let write_value: u32 = 133444;
    write_unsigned_int(&mut buffer, write_value).unwrap();
    let mut cursor = ByteCursor::new(buffer);
    let read_value = read_unsigned_int(&mut cursor).unwrap();
    assert_eq!(read_value, write_value);
}

#[test]
fn test_read_write_int_be() {
    let values: [i32; 11] = [
        0,
        1,
        -1,
        i8::MAX as i32,
        i16::MAX as i32,
        2 * i16::MAX as i32,
        i32::MAX / 2,
        i32::MIN / 2,
        i32::MAX,
        i32::MIN,
        i32::MAX,
    ];
    let mut buffer = vec![0u8; 4 * values.len()];
    for (i, &value) in values.iter().enumerate() {
        write_int_be(&mut buffer, i * 4, value).unwrap();
        assert_eq!(
            read_int_be(&buffer, i * 4).unwrap(),
            value,
            "Written value should match read value."
        );
    }
}

#[test]
fn byte_utils_test_write_unsigned_int_le() {
    let value1 = 0x04030201;
    let mut buffer1 = Vec::new();
    write_unsigned_int_le(&mut buffer1, value1).unwrap();
    write_unsigned_int_le(&mut buffer1, value1).unwrap();
    assert_eq!(buffer1, vec![0x01, 0x02, 0x03, 0x04, 0x01, 0x02, 0x03, 0x04]);

    let value2 = 0xf4f3f2f1;
    let mut buffer2 = Vec::new();
    write_unsigned_int_le(&mut buffer2, value2).unwrap();
    assert_eq!(buffer2, vec![0xf1, 0xf2, 0xf3, 0xf4]);
}

#[test]
fn test_write_unsigned_int_le_to_array() {
    let value1: u32 = 0x04030201;

    let mut array1 = vec![0u8; 4];
    write_unsigned_int_le_at(&mut array1, 0, value1).unwrap();
    assert_eq!(array1, vec![0x01, 0x02, 0x03, 0x04]);

    let mut array1_large = vec![0u8; 8];
    write_unsigned_int_le_at(&mut array1_large, 2, value1).unwrap();
    assert_eq!(array1_large, vec![0, 0, 0x01, 0x02, 0x03, 0x04, 0, 0]);

    let value2: u32 = 0xf4f3f2f1;

    let mut array2 = vec![0u8; 4];
    write_unsigned_int_le_at(&mut array2, 0, value2).unwrap();
    assert_eq!(array2, vec![0xf1, 0xf2, 0xf3, 0xf4]);

    let mut array2_large = vec![0u8; 8];
    write_unsigned_int_le_at(&mut array2_large, 2, value2).unwrap();
    assert_eq!(array2_large, vec![0, 0, 0xf1, 0xf2, 0xf3, 0xf4, 0, 0]);
}

#[test]
fn test_correctness_read_unsigned_varint() {
    let mut test_buffer = Vec::new();
    for i in (0..=u32::MAX).step_by(29999) {
        write_unsigned_varint(i, &mut test_buffer).expect("Writing to vec should not fail");
        let mut cursor1 = ByteCursor::new(test_buffer.clone());
        let actual = read_unsigned_varint(&mut cursor1)
            .expect("The function under test failed to read a valid varint");
        let expected = simple_read_u32(&test_buffer)
            .expect("The simple reference implementation failed to read a valid varint");
        assert_eq!(expected, actual, "Mismatch for value: {}", i);
        test_buffer.clear();
    }
}

#[test]
fn test_invalid_varint() {
    let buf = vec![
        0xFF, 0xFF, 0xFF, 0xFF, 0xFF, 0xFF, 0xFF, 0xFF, 0xFF, 0xFF, 0x01,
    ];
    let mut cursor = ByteCursor::new(buf);
    assert!(matches!(
        read_varint(&mut cursor),
        Err(VarintError::VarintTooLong)
    ));
}

#[test]
fn test_correctness_read_unsigned_varint64() {
    let mut test_buffer = Vec::new();
    let mut test_values = vec![0, 1, u64::MAX];
    for n in 1..64 {
        let base = 1u64 << n;
        test_values.push(base.saturating_sub(1));
        test_values.push(base);
        if let Some(plus_one) = base.checked_add(1) {
            test_values.push(plus_one);
        }
    }
    test_values.sort();
    test_values.dedup();
    println!(
        "Testing {} critical u64 values for varint correctness...",
        test_values.len()
    );
    for i in test_values {
        write_unsigned_varint64(i, &mut test_buffer).expect("Writing to vec should not fail");
        let mut cursor1 = ByteCursor::new(test_buffer.clone());
        let actual = read_unsigned_varint64(&mut cursor1)
            .expect("The function under test failed to read a valid varint");
        let expected = simple_read_u64(&test_buffer)
            .expect("The simple reference implementation failed to read a valid varint");
        assert_eq!(expected, actual, "Mismatch for value: {}", i);
        test_buffer.clear();
    }
}

#[test]
fn literal_vectors() {
    let mut out = Vec::new();
    write_unsigned_varint(300, &mut out).unwrap();
    assert_eq!(out, vec![0xAC, 0x02]);
    for (v, bytes) in [(-1i32, vec![0x01u8]), (1, vec![0x02]), (-2, vec![0x03])] {
        let mut out = Vec::new();
        write_varint(v, &mut out).unwrap();
        assert_eq!(out, bytes);
    }
    let mut out = Vec::new();
    write_unsigned_varint(i32::MAX as u32, &mut out).unwrap();
    assert_eq!(out, vec![0xFF, 0xFF, 0xFF, 0xFF, 0x07]);
}

#[test]
fn zigzag_maps_small_magnitudes_to_small_values() {
    assert_eq!(encode_zigzag32(0), 0);
    assert_eq!(encode_zigzag32(-1), 1);
    assert_eq!(encode_zigzag32(1), 2);
    assert_eq!(encode_zigzag32(-2), 3);
    assert_eq!(encode_zigzag32(2), 4);
    assert_eq!(encode_zigzag32(i32::MAX), u32::MAX - 1);
    assert_eq!(encode_zigzag32(i32::MIN), u32::MAX);
    assert_eq!(decode_zigzag32(u32::MAX), i32::MIN);
    assert_eq!(decode_zigzag32(3), -2);
    assert_eq!(encode_zigzag64(i64::MIN), u64::MAX);
    assert_eq!(decode_zigzag64(u64::MAX - 1), i64::MAX);
    assert_eq!(decode_zigzag64(4), 2);
}

#[test]
fn signed_64_round_trip_at_boundaries() {
    let mut values = vec![0i64, 1, -1, i64::MAX, i64::MIN];
    for n in 1..63 {
        let base = 1i64 << n;
        values.extend([base - 1, base, base + 1, -base - 1, -base, -base + 1]);
    }
    for v in values {
        let mut out = Vec::new();
        write_varint64(v, &mut out).unwrap();
        let mut cursor = ByteCursor::new(out.clone());
        assert_eq!(read_varint64(&mut cursor), Ok(v));
        assert_eq!(cursor.position(), out.len());
    }
}

#[test]
fn encoding_length_is_minimal() {
    let cases: [(u64, usize); 8] = [
        (0, 1),
        (127, 1),
        (128, 2),
        (16383, 2),
        (16384, 3),
        ((1 << 35) - 1, 5),
        (1 << 35, 6),
        (u64::MAX, 10),
    ];
    for (v, len) in cases {
        let mut out = Vec::new();
        write_unsigned_varint64(v, &mut out).unwrap();
        assert_eq!(out.len(), len, "length for {}", v);
    }
}

#[test]
fn overlong_varints_are_rejected() {
    let mut cursor = ByteCursor::new(vec![0x80, 0x80, 0x80, 0x80, 0x80, 0x00]);
    assert_eq!(read_unsigned_varint(&mut cursor), Err(VarintError::VarintTooLong));
    assert_eq!(cursor.position(), 5);
    assert_eq!(read_unsigned_varint(&mut cursor), Ok(0));
    let mut cursor = ByteCursor::new(vec![0xFF; 11]);
    assert_eq!(read_unsigned_varint64(&mut cursor), Err(VarintError::VarintTooLong));
    assert_eq!(cursor.position(), 10);
    let mut cursor = ByteCursor::new(vec![0xFF; 10]);
    assert_eq!(read_varint64(&mut cursor), Err(VarintError::VarintTooLong));
    assert_eq!(cursor.position(), 10);
}

#[test]
fn non_minimal_encodings_are_accepted() {
    let mut cursor = ByteCursor::new(vec![0x81, 0x80, 0x00]);
    assert_eq!(read_unsigned_varint(&mut cursor), Ok(1));
    assert_eq!(cursor.position(), 3);
}

#[test]
fn fifth_byte_payload_beyond_32_bits_is_dropped() {
    let mut cursor = ByteCursor::new(vec![0xFF, 0xFF, 0xFF, 0xFF, 0x7F]);
    assert_eq!(read_unsigned_varint(&mut cursor), Ok(u32::MAX));
}

#[test]
fn truncated_varints_fail_with_short_read() {
    for len in 0..5 {
        let mut cursor = ByteCursor::new(vec![0x80; len]);
        assert_eq!(read_unsigned_varint(&mut cursor), Err(VarintError::ShortRead));
        assert_eq!(cursor.position(), len);
    }
    let mut cursor = ByteCursor::new(vec![0xFF; 9]);
    assert_eq!(read_unsigned_varint64(&mut cursor), Err(VarintError::ShortRead));
    assert_eq!(cursor.position(), 9);
    let mut cursor = ByteCursor::new(vec![]);
    assert_eq!(read_varint(&mut cursor), Err(VarintError::ShortRead));
}

#[test]
fn sequential_reads_advance_the_cursor() {
    let mut out = Vec::new();
    write_unsigned_varint(300, &mut out).unwrap();
    write_varint(-64, &mut out).unwrap();
    write_unsigned_int(&mut out, 0xDEADBEEF).unwrap();
    let mut cursor = ByteCursor::new(out);
    assert_eq!(read_unsigned_varint(&mut cursor), Ok(300));
    assert_eq!(cursor.position(), 2);
    assert_eq!(read_varint(&mut cursor), Ok(-64));
    assert_eq!(read_unsigned_int(&mut cursor), Ok(0xDEADBEEF));
    assert_eq!(read_unsigned_int(&mut cursor), Err(VarintError::ShortRead));
    assert_eq!(cursor.position(), 7);
}

#[test]
fn fixed_width_round_trip_and_range_checks() {
    let mut buffer = vec![9u8; 8];
    write_unsigned_int_at(&mut buffer, 3, 0x01020304).unwrap();
    assert_eq!(buffer, vec![9, 9, 9, 1, 2, 3, 4, 9]);
    assert_eq!(read_unsigned_int_at(&buffer, 3), Ok(0x01020304));
    assert_eq!(read_unsigned_int_at(&buffer, 4), Ok(0x02030409));
    assert_eq!(read_unsigned_int_at(&buffer, 5), Err(VarintError::OutOfRange));
    assert_eq!(read_unsigned_int_at(&buffer, usize::MAX), Err(VarintError::OutOfRange));
    assert_eq!(write_unsigned_int_at(&mut buffer, 5, 7), Err(VarintError::OutOfRange));
    assert_eq!(write_unsigned_int_le_at(&mut buffer, 6, 7), Err(VarintError::OutOfRange));
    assert_eq!(write_int_be(&mut buffer, usize::MAX - 1, -1), Err(VarintError::OutOfRange));
    assert_eq!(buffer, vec![9, 9, 9, 1, 2, 3, 4, 9]);
    assert_eq!(read_int_be(&buffer, 8), Err(VarintError::OutOfRange));
    write_int_be(&mut buffer, 0, -2).unwrap();
    assert_eq!(&buffer[..4], &[0xFF, 0xFF, 0xFF, 0xFE]);
    assert_eq!(read_int_be(&buffer, 0), Ok(-2));
    assert_eq!(read_unsigned_int_at(&buffer, 0), Ok(0xFFFF_FFFE));
}

#[test]
fn big_and_little_endian_are_reversed() {
    let v: u32 = 0x0A0B0C0D;
    let mut be = Vec::new();
    let mut le = Vec::new();
    write_unsigned_int(&mut be, v).unwrap();
    write_unsigned_int_le(&mut le, v).unwrap();
    assert_eq!(be, vec![0x0A, 0x0B, 0x0C, 0x0D]);
    let mut reversed = be.clone();
    reversed.reverse();
    assert_eq!(le, reversed);
    assert_ne!(le, be);
}
