//! Four-byte fields carried in wider or signed integers: reads widen the
//! unsigned value to `i64`, writes keep the low 32 bits (two's complement).
use vstd::prelude::*;

use crate::cursor::{read_outcome, ByteCursor};
use crate::error::VarintError;
use crate::fixed_width::{
    be_bytes, be_value, decode_u32_be, le_bytes, splice4, window_fits, write_unsigned_int_at,
};

verus! {

/// Reading a big-endian unsigned field from the front of `s`, widened to `i64`.
pub open spec fn decode_u32_be_widened(s: Seq<u8>) -> Result<(i64, nat), VarintError> {
    match decode_u32_be(s) {
        Ok((v, n)) => Ok((v as i64, n)),
        Err(e) => Err(e),
    }
}

/// Reads a big-endian unsigned 32-bit field from a sequential source and
/// widens it to `i64`. Fewer than four remaining bytes is `ShortRead`, and
/// nothing is consumed.
pub fn read_unsigned_int(src: &mut ByteCursor) -> (r: Result<i64, VarintError>)
    ensures
        read_outcome(*old(src), *final(src), r, decode_u32_be_widened(old(src).remaining())),
{
    match crate::fixed_width::read_unsigned_int(src) {
        Ok(v) => Ok(v as i64),
        Err(e) => Err(e),
    }
}

/// Reads a big-endian unsigned 32-bit field at byte `index` of `buffer` and
/// widens it to `i64`. A window that passes the end is `OutOfRange`.
pub fn read_unsigned_int_from_pos(buffer: &[u8], index: usize) -> (r: Result<i64, VarintError>)
    ensures
        r == (if window_fits(buffer@.len(), index as nat) {
            Ok::<i64, VarintError>(be_value(buffer@.subrange(index as int, index + 4)) as i64)
        } else {
            Err::<i64, VarintError>(VarintError::OutOfRange)
        }),
{
    match crate::fixed_width::read_unsigned_int_at(buffer, index) {
        Ok(v) => Ok(v as i64),
        Err(e) => Err(e),
    }
}

/// Writes the low 32 bits of `value` big-endian at byte `index` of `buffer`.
/// A window that passes the end is `OutOfRange`, and then no byte changes.
pub fn write_unsigned_int_from_pos(buffer: &mut [u8], index: usize, value: i64) -> (r: Result<
    (),
    VarintError,
>)
    ensures
        window_fits(old(buffer)@.len(), index as nat) ==> r == Ok::<(), VarintError>(())
            && final(buffer)@ == splice4(old(buffer)@, index as nat, be_bytes(value as u32)),
        !window_fits(old(buffer)@.len(), index as nat) ==> r == Err::<(), VarintError>(
            VarintError::OutOfRange,
        ) && final(buffer)@ == old(buffer)@,
{
    #[verifier::truncate]
    let low = value as u32;
    write_unsigned_int_at(buffer, index, low)
}

/// Appends the low 32 bits of `value` big-endian. Appending cannot fail.
pub fn write_unsigned_int(out: &mut Vec<u8>, value: i64) -> (r: Result<(), VarintError>)
    ensures
        r == Ok::<(), VarintError>(()),
        final(out)@ == old(out)@ + be_bytes(value as u32),
{
    #[verifier::truncate]
    let low = value as u32;
    crate::fixed_width::write_unsigned_int(out, low)
}

/// Appends the bits of `value` little-endian. Appending cannot fail.
pub fn write_unsigned_int_le(out: &mut Vec<u8>, value: i32) -> (r: Result<(), VarintError>)
    ensures
        r == Ok::<(), VarintError>(()),
        final(out)@ == old(out)@ + le_bytes(value as u32),
{
    #[verifier::truncate]
    let bits = value as u32;
    crate::fixed_width::write_unsigned_int_le(out, bits)
}

} // verus!
