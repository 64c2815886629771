//! Four-byte integers, big-endian (network order) or little-endian, read and
//! written sequentially or at an absolute offset.
use vstd::prelude::*;

use crate::cursor::{read_outcome, ByteCursor};
use crate::error::VarintError;

verus! {

/// The four bytes of `v`, most significant first.
pub open spec fn be_bytes(v: u32) -> Seq<u8> {
    seq![
        (v / 0x100_0000) as u8,
        (v / 0x1_0000 % 0x100) as u8,
        (v / 0x100 % 0x100) as u8,
        (v % 0x100) as u8,
    ]
}

/// The four bytes of `v`, least significant first.
pub open spec fn le_bytes(v: u32) -> Seq<u8> {
    seq![
        (v % 0x100) as u8,
        (v / 0x100 % 0x100) as u8,
        (v / 0x1_0000 % 0x100) as u8,
        (v / 0x100_0000) as u8,
    ]
}

/// The number that the first four bytes of `s` spell, most significant first.
pub open spec fn be_value(s: Seq<u8>) -> u32 {
    (s[0] * 0x100_0000 + s[1] * 0x1_0000 + s[2] * 0x100 + s[3]) as u32
}

/// `buf` with the four bytes at `off` replaced by `b`.
pub open spec fn splice4(buf: Seq<u8>, off: nat, b: Seq<u8>) -> Seq<u8> {
    buf.subrange(0, off as int) + b + buf.subrange(off + 4 as int, buf.len() as int)
}

/// Whether four bytes starting at `off` lie inside a buffer of `len` bytes.
pub open spec fn window_fits(len: nat, off: nat) -> bool {
    off + 4 <= len
}

/// Reading a big-endian `u32` from the front of `s`, with the count of its bytes.
pub open spec fn decode_u32_be(s: Seq<u8>) -> Result<(u32, nat), VarintError> {
    if s.len() >= 4 {
        Ok((be_value(s), 4))
    } else {
        Err(VarintError::ShortRead)
    }
}

proof fn lemma_split_be(v: u32)
    ensures
        (v >> 24) as u8 == v / 0x100_0000,
        (v >> 16) as u8 == v / 0x1_0000 % 0x100,
        (v >> 8) as u8 == v / 0x100 % 0x100,
        v as u8 == v % 0x100,
{
    assert((v >> 24) as u8 == v / 0x100_0000 && (v >> 16) as u8 == v / 0x1_0000 % 0x100 && (v
        >> 8) as u8 == v / 0x100 % 0x100 && v as u8 == v % 0x100) by (bit_vector);
}

proof fn lemma_join_be(b0: u8, b1: u8, b2: u8, b3: u8)
    ensures
        ((b0 as u32) << 24) | ((b1 as u32) << 16) | ((b2 as u32) << 8) | (b3 as u32) == b0
            * 0x100_0000 + b1 * 0x1_0000 + b2 * 0x100 + b3,
{
    assert(((b0 as u32) << 24) | ((b1 as u32) << 16) | ((b2 as u32) << 8) | (b3 as u32) == b0
        * 0x100_0000 + b1 * 0x1_0000 + b2 * 0x100 + b3) by (bit_vector);
}

/// The big-endian bytes of `v`, as an array.
fn be_array(v: u32) -> (r: [u8; 4])
    ensures
        r@ == be_bytes(v),
{
    proof {
        lemma_split_be(v);
    }
    let r = [(v >> 24) as u8, (v >> 16) as u8, (v >> 8) as u8, v as u8];
    assert(r@ =~= be_bytes(v));
    r
}

/// The little-endian bytes of `v`, as an array.
fn le_array(v: u32) -> (r: [u8; 4])
    ensures
        r@ == le_bytes(v),
{
    proof {
        lemma_split_be(v);
    }
    let r = [v as u8, (v >> 8) as u8, (v >> 16) as u8, (v >> 24) as u8];
    assert(r@ =~= le_bytes(v));
    r
}

/// The number four bytes spell, most significant first.
fn be_join(b0: u8, b1: u8, b2: u8, b3: u8) -> (r: u32)
    ensures
        r == be_value(seq![b0, b1, b2, b3]),
{
    proof {
        lemma_join_be(b0, b1, b2, b3);
    }
    ((b0 as u32) << 24) | ((b1 as u32) << 16) | ((b2 as u32) << 8) | (b3 as u32)
}

/// Whether the four bytes at `off` lie inside a buffer of `len` bytes,
/// computed without overflow.
fn fits(len: usize, off: usize) -> (r: bool)
    ensures
        r == window_fits(len as nat, off as nat),
{
    off <= len && len - off >= 4
}

/// Copies `b` over the four bytes at `off`.
fn put4(buffer: &mut [u8], off: usize, b: [u8; 4])
    requires
        window_fits(old(buffer)@.len(), off as nat),
    ensures
        final(buffer)@ == splice4(old(buffer)@, off as nat, b@),
{
    buffer[off] = b[0];
    buffer[off + 1] = b[1];
    buffer[off + 2] = b[2];
    buffer[off + 3] = b[3];
    assert(buffer@ =~= splice4(old(buffer)@, off as nat, b@));
}

/// Reads a big-endian `u32` from a sequential source, consuming four bytes.
/// Fewer than four remaining bytes is `ShortRead`, and nothing is consumed.
pub fn read_unsigned_int(src: &mut ByteCursor) -> (r: Result<u32, VarintError>)
    ensures
        read_outcome(*old(src), *final(src), r, decode_u32_be(old(src).remaining())),
{
    let b0 = src.peek_at(0);
    let b1 = src.peek_at(1);
    let b2 = src.peek_at(2);
    let b3 = src.peek_at(3);
    match (b0, b1, b2, b3) {
        (Some(b0), Some(b1), Some(b2), Some(b3)) => {
            let v = be_join(b0, b1, b2, b3);
            src.advance(4);
            Ok(v)
        },
        _ => Err(VarintError::ShortRead),
    }
}

/// Reads a big-endian `u32` at byte `index` of `buffer`, which is not changed.
/// A window that passes the end of the buffer is `OutOfRange`.
pub fn read_unsigned_int_at(buffer: &[u8], index: usize) -> (r: Result<u32, VarintError>)
    ensures
        r == (if window_fits(buffer@.len(), index as nat) {
            Ok::<u32, VarintError>(be_value(buffer@.subrange(index as int, index + 4)))
        } else {
            Err::<u32, VarintError>(VarintError::OutOfRange)
        }),
{
    if !fits(buffer.len(), index) {
        return Err(VarintError::OutOfRange);
    }
    Ok(be_join(buffer[index], buffer[index + 1], buffer[index + 2], buffer[index + 3]))
}

/// Reads a big-endian `i32` at byte `offset` of `buffer`: the same bits as
/// `read_unsigned_int_at`, taken as two's complement.
pub fn read_int_be(buffer: &[u8], offset: usize) -> (r: Result<i32, VarintError>)
    ensures
        r == (if window_fits(buffer@.len(), offset as nat) {
            Ok::<i32, VarintError>(be_value(buffer@.subrange(offset as int, offset + 4)) as i32)
        } else {
            Err::<i32, VarintError>(VarintError::OutOfRange)
        }),
{
    match read_unsigned_int_at(buffer, offset) {
        Ok(v) => Ok(v as i32),
        Err(e) => Err(e),
    }
}

/// Writes `value` big-endian at byte `index` of `buffer`. A window that
/// passes the end of the buffer is `OutOfRange`, and then no byte changes.
pub fn write_unsigned_int_at(buffer: &mut [u8], index: usize, value: u32) -> (r: Result<
    (),
    VarintError,
>)
    ensures
        window_fits(old(buffer)@.len(), index as nat) ==> r == Ok::<(), VarintError>(())
            && final(buffer)@ == splice4(old(buffer)@, index as nat, be_bytes(value)),
        !window_fits(old(buffer)@.len(), index as nat) ==> r == Err::<(), VarintError>(
            VarintError::OutOfRange,
        ) && final(buffer)@ == old(buffer)@,
{
    if !fits(buffer.len(), index) {
        return Err(VarintError::OutOfRange);
    }
    put4(buffer, index, be_array(value));
    Ok(())
}

/// Writes `value` big-endian at byte `index` of `buffer`, as two's complement.
/// A window that passes the end of the buffer is `OutOfRange`, and then no
/// byte changes.
pub fn write_int_be(buffer: &mut [u8], index: usize, value: i32) -> (r: Result<(), VarintError>)
    ensures
        window_fits(old(buffer)@.len(), index as nat) ==> r == Ok::<(), VarintError>(())
            && final(buffer)@ == splice4(old(buffer)@, index as nat, be_bytes(value as u32)),
        !window_fits(old(buffer)@.len(), index as nat) ==> r == Err::<(), VarintError>(
            VarintError::OutOfRange,
        ) && final(buffer)@ == old(buffer)@,
{
    write_unsigned_int_at(buffer, index, value as u32)
}

/// Writes `value` little-endian at byte `offset` of `buffer`. A window that
/// passes the end of the buffer is `OutOfRange`, and then no byte changes.
pub fn write_unsigned_int_le_at(buffer: &mut [u8], offset: usize, value: u32) -> (r: Result<
    (),
    VarintError,
>)
    ensures
        window_fits(old(buffer)@.len(), offset as nat) ==> r == Ok::<(), VarintError>(())
            && final(buffer)@ == splice4(old(buffer)@, offset as nat, le_bytes(value)),
        !window_fits(old(buffer)@.len(), offset as nat) ==> r == Err::<(), VarintError>(
            VarintError::OutOfRange,
        ) && final(buffer)@ == old(buffer)@,
{
    if !fits(buffer.len(), offset) {
        return Err(VarintError::OutOfRange);
    }
    put4(buffer, offset, le_array(value));
    Ok(())
}

/// Appends `value` big-endian. Appending to a vector cannot fail.
pub fn write_unsigned_int(out: &mut Vec<u8>, value: u32) -> (r: Result<(), VarintError>)
    ensures
        r == Ok::<(), VarintError>(()),
        final(out)@ == old(out)@ + be_bytes(value),
{
    let b = be_array(value);
    out.push(b[0]);
    out.push(b[1]);
    out.push(b[2]);
    out.push(b[3]);
    assert(out@ =~= old(out)@ + be_bytes(value));
    Ok(())
}

/// Appends `value` little-endian. Appending to a vector cannot fail.
pub fn write_unsigned_int_le(out: &mut Vec<u8>, value: u32) -> (r: Result<(), VarintError>)
    ensures
        r == Ok::<(), VarintError>(()),
        final(out)@ == old(out)@ + le_bytes(value),
{
    let b = le_array(value);
    out.push(b[0]);
    out.push(b[1]);
    out.push(b[2]);
    out.push(b[3]);
    assert(out@ =~= old(out)@ + le_bytes(value));
    Ok(())
}

/// The four big-endian bytes of `v` spell `v` again.
proof fn lemma_be_value_of_bytes(v: u32)
    ensures
        be_value(be_bytes(v)) == v,
{
    let b = be_bytes(v);
    assert(b[0] * 0x100_0000 + b[1] * 0x1_0000 + b[2] * 0x100 + b[3] == v) by (nonlinear_arith)
        requires
            b[0] == v / 0x100_0000,
            b[1] == v / 0x1_0000 % 0x100,
            b[2] == v / 0x100 % 0x100,
            b[3] == v % 0x100,
            v < 0x1_0000_0000,
    ;
}

/// Writing a `u32` big-endian at a valid offset and reading it back there
/// gives the value, and the bytes outside the window keep their values.
pub proof fn lemma_fixed_width_round_trip(buf: Seq<u8>, off: nat, v: u32)
    requires
        window_fits(buf.len(), off),
    ensures
        be_value(splice4(buf, off, be_bytes(v)).subrange(off as int, off + 4 as int)) == v,
        splice4(buf, off, be_bytes(v)).len() == buf.len(),
        forall|j: int|
            0 <= j < buf.len() && !(off <= j < off + 4) ==> #[trigger] splice4(
                buf,
                off,
                be_bytes(v),
            )[j] == buf[j],
{
    let w = splice4(buf, off, be_bytes(v));
    assert(w.subrange(off as int, off + 4 as int) =~= be_bytes(v));
    lemma_be_value_of_bytes(v);
}

/// The signed reading of a written `i32` is the value written.
pub proof fn lemma_fixed_width_signed_round_trip(buf: Seq<u8>, off: nat, v: i32)
    requires
        window_fits(buf.len(), off),
    ensures
        be_value(splice4(buf, off, be_bytes(v as u32)).subrange(off as int, off + 4 as int)) as i32 == v,
{
    lemma_fixed_width_round_trip(buf, off, v as u32);
    assert((v as u32) as i32 == v) by (bit_vector);
}

/// A `u32` written big-endian to a stream reads back as itself, taking four bytes.
pub proof fn lemma_stream_round_trip(v: u32, rest: Seq<u8>)
    ensures
        decode_u32_be(be_bytes(v) + rest) == Ok::<(u32, nat), VarintError>((v, 4)),
{
    let s = be_bytes(v) + rest;
    assert(s.subrange(0, 4) =~= be_bytes(v));
    assert(s[0] == be_bytes(v)[0] && s[1] == be_bytes(v)[1] && s[2] == be_bytes(v)[2] && s[3]
        == be_bytes(v)[3]);
    lemma_be_value_of_bytes(v);
}

/// The little-endian bytes of a value are its big-endian bytes reversed, and
/// the two differ whenever that pattern is not a palindrome.
pub proof fn lemma_endianness_distinction(v: u32)
    ensures
        le_bytes(v) == be_bytes(v).reverse(),
        be_bytes(v) != be_bytes(v).reverse() ==> le_bytes(v) != be_bytes(v),
{
    assert(le_bytes(v) =~= be_bytes(v).reverse());
}

} // verus!
