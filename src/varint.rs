//! Variable-length integers: seven payload bits per byte, least significant
//! group first, the high bit of each byte flagging that more bytes follow.
use vstd::arithmetic::power2::{
    lemma2_to64, lemma_pow2_adds, lemma_pow2_strictly_increases, pow2,
};
use vstd::bits::{lemma_u32_shr_is_div, lemma_u64_shl_is_mul, lemma_u64_shr_is_div};
use vstd::prelude::*;

use crate::cursor::ByteCursor;
use crate::error::VarintError;
use crate::zigzag::{decode_zigzag32, decode_zigzag64, encode_zigzag32, encode_zigzag64, unzigzag, zigzag};

verus! {

/// Most bytes a varint of the 32-bit domain may take.
pub const MAX_VARINT32_BYTES: usize = 5;

/// Most bytes a varint of the 64-bit domain may take.
pub const MAX_VARINT64_BYTES: usize = 10;

/// The number carried by the payload bits of `s`, first byte least significant.
pub open spec fn groups_value(s: Seq<u8>) -> nat
    decreases s.len(),
{
    if s.len() == 0 {
        0
    } else {
        (s[0] % 128) as nat + 128 * groups_value(s.drop_first())
    }
}

/// The minimal varint encoding of `v`.
pub open spec fn varint_encoding(v: nat) -> Seq<u8>
    decreases v,
{
    if v < 128 {
        seq![v as u8]
    } else {
        seq![(v % 128 + 128) as u8] + varint_encoding(v / 128)
    }
}

/// How many bytes at the front of `s` form a varint of at most `max` bytes,
/// or why none does: the source ends first, or byte number `max` still asks
/// for more.
pub open spec fn varint_extent(s: Seq<u8>, max: nat) -> Result<nat, VarintError>
    decreases s.len(),
{
    if s.len() == 0 {
        Err(VarintError::ShortRead)
    } else if s[0] < 128 {
        Ok(1)
    } else if max <= 1 {
        Err(VarintError::VarintTooLong)
    } else {
        match varint_extent(s.drop_first(), (max - 1) as nat) {
            Ok(n) => Ok(n + 1),
            Err(e) => Err(e),
        }
    }
}

/// The number a varint of at most `max` bytes at the front of `s` carries,
/// with the count of its bytes.
pub open spec fn decode_varint(s: Seq<u8>, max: nat) -> Result<(nat, nat), VarintError> {
    match varint_extent(s, max) {
        Ok(n) => Ok((groups_value(s.take(n as int)), n)),
        Err(e) => Err(e),
    }
}

/// `after` is `before` once a varint read of at most `max` bytes that was
/// expected to give `expected` has returned `r`. The reader takes one byte at
/// a time and checks it before the next, so: on success exactly the varint's
/// bytes are consumed; on `VarintTooLong` the `max` bytes read; on
/// `ShortRead` everything that remained.
pub open spec fn varint_read_outcome<T>(
    before: ByteCursor,
    after: ByteCursor,
    r: Result<T, VarintError>,
    expected: Result<(T, nat), VarintError>,
    max: nat,
) -> bool {
    &&& after.data() == before.data()
    &&& match expected {
        Ok((v, n)) => r == Ok::<T, VarintError>(v) && after.pos() == before.pos() + n,
        Err(VarintError::VarintTooLong) => r == Err::<T, VarintError>(VarintError::VarintTooLong)
            && after.pos() == before.pos() + max,
        Err(e) => r == Err::<T, VarintError>(e) && after.pos() == before.pos()
            + before.remaining().len(),
    }
}

/// Decoding in the unsigned 32-bit domain; payload bits past bit 31 are dropped.
pub open spec fn decode_unsigned_varint32(s: Seq<u8>) -> Result<(u32, nat), VarintError> {
    match decode_varint(s, MAX_VARINT32_BYTES as nat) {
        Ok((v, n)) => Ok(((v % 0x1_0000_0000) as u32, n)),
        Err(e) => Err(e),
    }
}

/// Decoding in the unsigned 64-bit domain; payload bits past bit 63 are dropped.
pub open spec fn decode_unsigned_varint64(s: Seq<u8>) -> Result<(u64, nat), VarintError> {
    match decode_varint(s, MAX_VARINT64_BYTES as nat) {
        Ok((v, n)) => Ok(((v % 0x1_0000_0000_0000_0000) as u64, n)),
        Err(e) => Err(e),
    }
}

/// Decoding a zig-zag varint in the signed 32-bit domain.
pub open spec fn decode_varint32(s: Seq<u8>) -> Result<(i32, nat), VarintError> {
    match decode_unsigned_varint32(s) {
        Ok((u, n)) => Ok((unzigzag(u as nat) as i32, n)),
        Err(e) => Err(e),
    }
}

/// Decoding a zig-zag varint in the signed 64-bit domain.
pub open spec fn decode_varint64(s: Seq<u8>) -> Result<(i64, nat), VarintError> {
    match decode_unsigned_varint64(s) {
        Ok((u, n)) => Ok((unzigzag(u as nat) as i64, n)),
        Err(e) => Err(e),
    }
}

/// One more group multiplies the range by 128.
proof fn lemma_pow2_7(n: nat)
    ensures
        pow2(7 * (n + 1)) == 128 * pow2(7 * n),
{
    lemma_pow2_adds(7, 7 * n);
    lemma2_to64();
    assert(7 * (n + 1) == 7 + 7 * n) by (nonlinear_arith);
}

/// Appending a byte adds its payload at the next group position.
proof fn lemma_groups_push(s: Seq<u8>, b: u8)
    ensures
        groups_value(s.push(b)) == groups_value(s) + (b % 128) * pow2(7 * s.len()),
    decreases s.len(),
{
    if s.len() == 0 {
        lemma2_to64();
        assert(s.push(b).drop_first() =~= Seq::<u8>::empty());
        assert(groups_value(Seq::<u8>::empty()) == 0);
        assert(groups_value(s.push(b)) == (b % 128) as nat);
    } else {
        let t = s.drop_first();
        assert(s.push(b).drop_first() =~= t.push(b));
        assert(s.push(b)[0] == s[0]);
        lemma_groups_push(t, b);
        lemma_pow2_7(t.len());
        let c = (b % 128) as int;
        let p = pow2(7 * t.len()) as int;
        let g = groups_value(t) as int;
        assert(128 * (g + c * p) == 128 * g + c * (128 * p)) by (nonlinear_arith);
    }
}

/// `k` payload groups carry less than `2^(7k)`.
proof fn lemma_groups_bound(s: Seq<u8>)
    ensures
        groups_value(s) < pow2(7 * s.len()),
    decreases s.len(),
{
    if s.len() == 0 {
        lemma2_to64();
    } else {
        let t = s.drop_first();
        lemma_groups_bound(t);
        lemma_pow2_7(t.len());
        let g = groups_value(t) as int;
        let p = pow2(7 * t.len()) as int;
        assert(g <= p - 1);
        assert(128 * g <= 128 * (p - 1)) by (nonlinear_arith)
            requires
                g <= p - 1,
        ;
    }
}

/// Reading byte `i` after `i` continuation bytes: what `varint_extent` says of it.
proof fn lemma_extent_at(s: Seq<u8>, max: nat, i: nat)
    requires
        i < max,
        i <= s.len(),
        forall|j: int| 0 <= j < i ==> s[j] >= 128,
    ensures
        i == s.len() ==> varint_extent(s, max) == Err::<nat, VarintError>(VarintError::ShortRead),
        i < s.len() && s[i as int] < 128 ==> varint_extent(s, max) == Ok::<nat, VarintError>(i + 1),
        i < s.len() && s[i as int] >= 128 && i + 1 == max ==> varint_extent(s, max) == Err::<
            nat,
            VarintError,
        >(VarintError::VarintTooLong),
    decreases i,
{
    if i > 0 {
        let t = s.drop_first();
        assert forall|j: int| 0 <= j < i - 1 implies t[j] >= 128 by {
            assert(s[j + 1] >= 128);
        }
        lemma_extent_at(t, (max - 1) as nat, (i - 1) as nat);
    }
}

/// The payload and continuation flag of a byte.
proof fn lemma_byte_parts(b: u8)
    ensures
        b & 0x7f == b % 128,
        (b & 0x80 == 0) == (b < 128),
{
    assert(b & 0x7f == b % 128 && ((b & 0x80 == 0) == (b < 128))) by (bit_vector);
}

/// ORing a group in above the accumulator's bits adds it, modulo `2^32`.
proof fn lemma_merge_group32(acc: u32, group: u32, shift: u32)
    requires
        shift <= 28,
        group < 128,
        acc >> shift == 0,
    ensures
        (acc | (group << shift)) as u64 == ((acc as u64) + (group as u64) * (1u64 << (shift as u64)))
            % 0x1_0000_0000,
{
    assert((acc | (group << shift)) as u64 == ((acc as u64) + (group as u64) * (1u64 << (
    shift as u64))) % 0x1_0000_0000) by (bit_vector)
        requires
            shift <= 28,
            group < 128,
            acc >> shift == 0,
    ;
}

/// ORing a group in above the accumulator's bits adds it, modulo `2^64`.
proof fn lemma_merge_group64(acc: u64, group: u64, shift: u64)
    requires
        shift <= 63,
        group < 128,
        acc >> shift == 0,
    ensures
        (acc | (group << shift)) as u128 == ((acc as u128) + (group as u128) * ((1u64 << shift) as u128))
            % 0x1_0000_0000_0000_0000,
{
    assert((acc | (group << shift)) as u128 == ((acc as u128) + (group as u128) * ((1u64 << shift) as u128))
        % 0x1_0000_0000_0000_0000) by (bit_vector)
        requires
            shift <= 63,
            group < 128,
            acc >> shift == 0,
    ;
}

/// Reads an unsigned varint of the 32-bit domain (at most five bytes).
///
/// A fifth byte that still carries the continuation flag is `VarintTooLong`,
/// after the five bytes are consumed; a source that ends before the
/// terminating byte is `ShortRead`, after all its bytes are consumed.
pub fn read_unsigned_varint(src: &mut ByteCursor) -> (r: Result<u32, VarintError>)
    ensures
        varint_read_outcome(
            *old(src),
            *final(src),
            r,
            decode_unsigned_varint32(old(src).remaining()),
            MAX_VARINT32_BYTES as nat,
        ),
{
    let ghost s = src.remaining();
    let mut result: u32 = 0;
    let mut shift: u32 = 0;
    let mut i: usize = 0;
    loop
        invariant
            i <= 4,
            i <= s.len(),
            shift == 7 * i,
            s == src.remaining(),
            *src == *old(src),
            forall|j: int| 0 <= j < i ==> s[j] >= 128,
            result == groups_value(s.take(i as int)),
        decreases 5 - i,
    {
        proof {
            lemma_extent_at(s, 5, i as nat);
        }
        let byte = match src.peek_at(i) {
            Some(b) => b,
            None => {
                src.advance(i);
                return Err(VarintError::ShortRead);
            },
        };
        proof {
            lemma_byte_parts(byte);
        }
        if i == MAX_VARINT32_BYTES - 1 && (byte & 0x80) != 0 {
            src.advance(i + 1);
            return Err(VarintError::VarintTooLong);
        }
        let group: u32 = (byte & 0x7f) as u32;
        proof {
            let g = s.take(i as int);
            lemma_groups_bound(g);
            lemma_groups_push(g, byte);
            assert(s.take(i + 1) =~= g.push(byte));
            lemma_groups_bound(s.take(i + 1));
            lemma_u32_shr_is_div(result, shift);
            if i < 4 {
                lemma_pow2_strictly_increases(7 * (i + 1) as nat, 32);
            }
            lemma2_to64();
            lemma_pow2_strictly_increases(shift as nat, 32);
            lemma_u64_shl_is_mul(1, shift as u64);
            assert(result as nat / pow2(shift as nat) == 0) by (nonlinear_arith)
                requires
                    result < pow2(shift as nat),
            ;
            lemma_merge_group32(result, group, shift);
        }
        result = result | (group << shift);
        if (byte & 0x80) == 0 {
            src.advance(i + 1);
            return Ok(result);
        }
        shift = shift + 7;
        i = i + 1;
    }
}

/// Reads an unsigned varint of the 64-bit domain (at most ten bytes).
///
/// A tenth byte that still carries the continuation flag is `VarintTooLong`,
/// after the ten bytes are consumed; a source that ends before the
/// terminating byte is `ShortRead`, after all its bytes are consumed.
pub fn read_unsigned_varint64(src: &mut ByteCursor) -> (r: Result<u64, VarintError>)
    ensures
        varint_read_outcome(
            *old(src),
            *final(src),
            r,
            decode_unsigned_varint64(old(src).remaining()),
            MAX_VARINT64_BYTES as nat,
        ),
{
    let ghost s = src.remaining();
    let mut result: u64 = 0;
    let mut shift: u64 = 0;
    let mut i: usize = 0;
    loop
        invariant
            i <= 9,
            i <= s.len(),
            shift == 7 * i,
            s == src.remaining(),
            *src == *old(src),
            forall|j: int| 0 <= j < i ==> s[j] >= 128,
            result == groups_value(s.take(i as int)),
        decreases 10 - i,
    {
        proof {
            lemma_extent_at(s, 10, i as nat);
        }
        let byte = match src.peek_at(i) {
            Some(b) => b,
            None => {
                src.advance(i);
                return Err(VarintError::ShortRead);
            },
        };
        proof {
            lemma_byte_parts(byte);
        }
        if i == MAX_VARINT64_BYTES - 1 && (byte & 0x80) != 0 {
            src.advance(i + 1);
            return Err(VarintError::VarintTooLong);
        }
        let group: u64 = (byte & 0x7f) as u64;
        proof {
            let g = s.take(i as int);
            lemma_groups_bound(g);
            lemma_groups_push(g, byte);
            assert(s.take(i + 1) =~= g.push(byte));
            lemma_groups_bound(s.take(i + 1));
            lemma_u64_shr_is_div(result, shift);
            if i < 9 {
                lemma_pow2_strictly_increases(7 * (i + 1) as nat, 64);
            }
            lemma2_to64();
            lemma_pow2_strictly_increases(shift as nat, 64);
            lemma_u64_shl_is_mul(1, shift);
            assert(result as nat / pow2(shift as nat) == 0) by (nonlinear_arith)
                requires
                    result < pow2(shift as nat),
            ;
            lemma_merge_group64(result, group, shift);
        }
        result = result | (group << shift);
        if (byte & 0x80) == 0 {
            src.advance(i + 1);
            return Ok(result);
        }
        shift = shift + 7;
        i = i + 1;
    }
}

/// Reads a zig-zag varint of the signed 32-bit domain.
pub fn read_varint(src: &mut ByteCursor) -> (r: Result<i32, VarintError>)
    ensures
        varint_read_outcome(
            *old(src),
            *final(src),
            r,
            decode_varint32(old(src).remaining()),
            MAX_VARINT32_BYTES as nat,
        ),
{
    match read_unsigned_varint(src) {
        Ok(u) => Ok(decode_zigzag32(u)),
        Err(e) => Err(e),
    }
}

/// Reads a zig-zag varint of the signed 64-bit domain.
pub fn read_varint64(src: &mut ByteCursor) -> (r: Result<i64, VarintError>)
    ensures
        varint_read_outcome(
            *old(src),
            *final(src),
            r,
            decode_varint64(old(src).remaining()),
            MAX_VARINT64_BYTES as nat,
        ),
{
    match read_unsigned_varint64(src) {
        Ok(u) => Ok(decode_zigzag64(u)),
        Err(e) => Err(e),
    }
}

/// The byte that carries the low group of `v` with the continuation flag set,
/// and what remains of `v` after it.
proof fn lemma_split_group32(v: u32)
    ensures
        ((v & 0x7f) | 0x80) as u8 == v % 128 + 128,
        v >> 7 == v / 128,
{
    assert(((v & 0x7f) | 0x80) as u8 == v % 128 + 128 && v >> 7 == v / 128) by (bit_vector);
}

/// The byte that carries the low group of `v` with the continuation flag set,
/// and what remains of `v` after it.
proof fn lemma_split_group64(v: u64)
    ensures
        ((v & 0x7f) | 0x80) as u8 == v % 128 + 128,
        v >> 7 == v / 128,
{
    assert(((v & 0x7f) | 0x80) as u8 == v % 128 + 128 && v >> 7 == v / 128) by (bit_vector);
}

/// Appends the minimal varint encoding of a 32-bit unsigned value.
///
/// Appending to a vector cannot fail, so the result is always `Ok`.
pub fn write_unsigned_varint(value: u32, out: &mut Vec<u8>) -> (r: Result<(), VarintError>)
    ensures
        r == Ok::<(), VarintError>(()),
        final(out)@ == old(out)@ + varint_encoding(value as nat),
{
    let mut v: u32 = value;
    while v >= 0x80
        invariant
            out@ + varint_encoding(v as nat) == old(out)@ + varint_encoding(value as nat),
        decreases v,
    {
        proof {
            lemma_split_group32(v);
        }
        let byte: u8 = ((v & 0x7f) | 0x80) as u8;
        let ghost before = out@;
        out.push(byte);
        v = v >> 7;
        assert(before + varint_encoding((v * 128 + byte - 128) as nat) == out@ + varint_encoding(v as nat)) by {
            assert(varint_encoding((v * 128 + byte - 128) as nat) == seq![byte] + varint_encoding(v as nat));
            assert(before + (seq![byte] + varint_encoding(v as nat)) =~= out@ + varint_encoding(v as nat));
        }
    }
    out.push(v as u8);
    assert(out@ =~= old(out)@ + varint_encoding(value as nat));
    Ok(())
}

/// Appends the minimal varint encoding of a 64-bit unsigned value.
///
/// Appending to a vector cannot fail, so the result is always `Ok`.
pub fn write_unsigned_varint64(value: u64, out: &mut Vec<u8>) -> (r: Result<(), VarintError>)
    ensures
        r == Ok::<(), VarintError>(()),
        final(out)@ == old(out)@ + varint_encoding(value as nat),
{
    let mut v: u64 = value;
    while v >= 0x80
        invariant
            out@ + varint_encoding(v as nat) == old(out)@ + varint_encoding(value as nat),
        decreases v,
    {
        proof {
            lemma_split_group64(v);
        }
        let byte: u8 = ((v & 0x7f) | 0x80) as u8;
        let ghost before = out@;
        out.push(byte);
        v = v >> 7;
        assert(before + varint_encoding((v * 128 + byte - 128) as nat) == out@ + varint_encoding(v as nat)) by {
            assert(varint_encoding((v * 128 + byte - 128) as nat) == seq![byte] + varint_encoding(v as nat));
            assert(before + (seq![byte] + varint_encoding(v as nat)) =~= out@ + varint_encoding(v as nat));
        }
    }
    out.push(v as u8);
    assert(out@ =~= old(out)@ + varint_encoding(value as nat));
    Ok(())
}

/// Appends the zig-zag varint encoding of a 32-bit signed value.
pub fn write_varint(value: i32, out: &mut Vec<u8>) -> (r: Result<(), VarintError>)
    ensures
        r == Ok::<(), VarintError>(()),
        final(out)@ == old(out)@ + varint_encoding(zigzag(value as int)),
{
    write_unsigned_varint(encode_zigzag32(value), out)
}

/// Appends the zig-zag varint encoding of a 64-bit signed value.
pub fn write_varint64(value: i64, out: &mut Vec<u8>) -> (r: Result<(), VarintError>)
    ensures
        r == Ok::<(), VarintError>(()),
        final(out)@ == old(out)@ + varint_encoding(zigzag(value as int)),
{
    write_unsigned_varint64(encode_zigzag64(value), out)
}

/// Shape of the minimal encoding: every byte but the last carries the
/// continuation flag, and the payload groups spell the value.
proof fn lemma_encoding_shape(v: nat)
    ensures
        varint_encoding(v).len() >= 1,
        forall|j: int|
            0 <= j < varint_encoding(v).len() - 1 ==> #[trigger] varint_encoding(v)[j] >= 128,
        varint_encoding(v)[varint_encoding(v).len() - 1] < 128,
        groups_value(varint_encoding(v)) == v,
    decreases v,
{
    let e = varint_encoding(v);
    if v < 128 {
        assert(e.drop_first() =~= Seq::<u8>::empty());
        assert(groups_value(Seq::<u8>::empty()) == 0);
    } else {
        let t = varint_encoding(v / 128);
        lemma_encoding_shape(v / 128);
        assert(e.drop_first() =~= t);
        assert forall|j: int| 0 <= j < e.len() - 1 implies #[trigger] e[j] >= 128 by {
            if j > 0 {
                assert(e[j] == t[j - 1]);
            }
        }
        assert(e[e.len() - 1] == t[t.len() - 1]);
    }
}

/// `k` payload groups can hold `v`.
pub open spec fn fits_in_groups(v: nat, k: nat) -> bool {
    v < pow2(7 * k)
}

/// The encoder emits the fewest bytes that can hold the value: its output
/// length is the smallest `k >= 1` with `v < 2^(7k)`.
pub proof fn lemma_varint_encoding_minimal(v: nat)
    ensures
        varint_encoding(v).len() >= 1,
        fits_in_groups(v, varint_encoding(v).len()),
        forall|k: nat| 1 <= k < varint_encoding(v).len() ==> !#[trigger] fits_in_groups(v, k),
    decreases v,
{
    lemma2_to64();
    if v >= 128 {
        let n = varint_encoding(v / 128).len();
        lemma_varint_encoding_minimal(v / 128);
        assert(varint_encoding(v).len() == n + 1);
        lemma_pow2_7(n);
        let p = pow2(7 * n) as int;
        let q = (v / 128) as int;
        assert(v < 128 * p) by (nonlinear_arith)
            requires
                q < p,
                q == v / 128,
        ;
        assert forall|k: nat| 1 <= k < n + 1 implies !#[trigger] fits_in_groups(v, k) by {
            if k >= 2 {
                lemma_pow2_7((k - 1) as nat);
                let pk = pow2(7 * (k - 1) as nat) as int;
                assert(!fits_in_groups(v / 128, (k - 1) as nat));
                assert(pk <= q);
                assert(128 * pk <= v) by (nonlinear_arith)
                    requires
                        pk <= q,
                        q == v / 128,
                ;
            }
        }
    }
}

/// The encoding of `v`, followed by anything, decodes to `v` in one piece
/// when it fits the domain's byte budget.
proof fn lemma_decode_encoding(v: nat, rest: Seq<u8>, max: nat)
    requires
        varint_encoding(v).len() <= max,
    ensures
        decode_varint(varint_encoding(v) + rest, max) == Ok::<(nat, nat), VarintError>(
            (v, varint_encoding(v).len()),
        ),
{
    let e = varint_encoding(v);
    let s = e + rest;
    lemma_encoding_shape(v);
    assert forall|j: int| 0 <= j < e.len() - 1 implies s[j] >= 128 by {
        assert(s[j] == e[j]);
    }
    assert(s[e.len() - 1] == e[e.len() - 1]);
    lemma_extent_at(s, max, (e.len() - 1) as nat);
    assert(s.take(e.len() as int) =~= e);
}

/// A value below `2^(7k)` encodes in at most `k` bytes.
proof fn lemma_encoding_fits(v: nat, k: nat)
    requires
        k >= 1,
        v < pow2(7 * k),
    ensures
        varint_encoding(v).len() <= k,
{
    lemma_varint_encoding_minimal(v);
    let n = varint_encoding(v).len();
    if n > k {
        assert(!fits_in_groups(v, k));
    }
}

/// Every `u32` survives an unsigned varint encode then decode, whatever
/// follows it in the source, and the decoder takes exactly its bytes.
pub proof fn lemma_unsigned_varint32_round_trip(v: u32, rest: Seq<u8>)
    ensures
        varint_encoding(v as nat).len() <= 5,
        decode_unsigned_varint32(varint_encoding(v as nat) + rest) == Ok::<(u32, nat), VarintError>(
            (v, varint_encoding(v as nat).len()),
        ),
{
    lemma2_to64();
    lemma_pow2_strictly_increases(32, 35);
    lemma_encoding_fits(v as nat, 5);
    lemma_decode_encoding(v as nat, rest, 5);
}

/// Every `u64` survives an unsigned varint encode then decode, whatever
/// follows it in the source, and the decoder takes exactly its bytes.
pub proof fn lemma_unsigned_varint64_round_trip(v: u64, rest: Seq<u8>)
    ensures
        varint_encoding(v as nat).len() <= 10,
        decode_unsigned_varint64(varint_encoding(v as nat) + rest) == Ok::<(u64, nat), VarintError>(
            (v, varint_encoding(v as nat).len()),
        ),
{
    lemma2_to64();
    lemma_pow2_strictly_increases(64, 70);
    lemma_encoding_fits(v as nat, 10);
    lemma_decode_encoding(v as nat, rest, 10);
}

/// Every `i32`, the extremes included, survives a zig-zag varint encode then
/// decode, and the decoder takes exactly its bytes.
pub proof fn lemma_varint32_round_trip(v: i32, rest: Seq<u8>)
    ensures
        decode_varint32(varint_encoding(zigzag(v as int)) + rest) == Ok::<(i32, nat), VarintError>(
            (v, varint_encoding(zigzag(v as int)).len()),
        ),
{
    let u = zigzag(v as int);
    assert(u < 0x1_0000_0000);
    lemma_unsigned_varint32_round_trip(u as u32, rest);
    crate::zigzag::lemma_zigzag_round_trip(v as int);
}

/// Every `i64`, the extremes included, survives a zig-zag varint encode then
/// decode, and the decoder takes exactly its bytes.
pub proof fn lemma_varint64_round_trip(v: i64, rest: Seq<u8>)
    ensures
        decode_varint64(varint_encoding(zigzag(v as int)) + rest) == Ok::<(i64, nat), VarintError>(
            (v, varint_encoding(zigzag(v as int)).len()),
        ),
{
    let u = zigzag(v as int);
    assert(u < 0x1_0000_0000_0000_0000);
    lemma_unsigned_varint64_round_trip(u as u64, rest);
    crate::zigzag::lemma_zigzag_round_trip(v as int);
}

/// A varint is too long exactly when the first `max` bytes all carry the
/// continuation flag.
proof fn lemma_too_long_exactly(s: Seq<u8>, max: nat)
    requires
        max >= 1,
    ensures
        (varint_extent(s, max) == Err::<nat, VarintError>(VarintError::VarintTooLong)) <==> (s.len()
            >= max && forall|j: int| 0 <= j < max ==> s[j] >= 128),
    decreases max,
{
    if s.len() > 0 && s[0] >= 128 && max > 1 {
        let t = s.drop_first();
        lemma_too_long_exactly(t, (max - 1) as nat);
        if t.len() >= max - 1 && forall|j: int| 0 <= j < max - 1 ==> t[j] >= 128 {
            assert forall|j: int| 0 <= j < max implies s[j] >= 128 by {
                if j > 0 {
                    assert(s[j] == t[j - 1]);
                }
            }
        }
        if s.len() >= max && forall|j: int| 0 <= j < max ==> s[j] >= 128 {
            assert forall|j: int| 0 <= j < max - 1 implies t[j] >= 128 by {
                assert(t[j] == s[j + 1]);
            }
        }
    }
}

/// The 32-bit decoders reject a varint as too long exactly when its first
/// five bytes all carry the continuation flag; the reader then consumes those
/// five bytes (`varint_read_outcome`).
pub proof fn lemma_overlong_varint32_rejected(s: Seq<u8>)
    ensures
        (decode_unsigned_varint32(s) == Err::<(u32, nat), VarintError>(VarintError::VarintTooLong))
            <==> (s.len() >= 5 && forall|j: int| 0 <= j < 5 ==> s[j] >= 128),
        (decode_varint32(s) == Err::<(i32, nat), VarintError>(VarintError::VarintTooLong)) <==> (
        s.len() >= 5 && forall|j: int| 0 <= j < 5 ==> s[j] >= 128),
{
    lemma_too_long_exactly(s, 5);
}

/// The 64-bit decoders reject a varint as too long exactly when its first ten
/// bytes all carry the continuation flag; the reader then consumes those ten
/// bytes (`varint_read_outcome`).
pub proof fn lemma_overlong_varint64_rejected(s: Seq<u8>)
    ensures
        (decode_unsigned_varint64(s) == Err::<(u64, nat), VarintError>(VarintError::VarintTooLong))
            <==> (s.len() >= 10 && forall|j: int| 0 <= j < 10 ==> s[j] >= 128),
        (decode_varint64(s) == Err::<(i64, nat), VarintError>(VarintError::VarintTooLong)) <==> (
        s.len() >= 10 && forall|j: int| 0 <= j < 10 ==> s[j] >= 128),
{
    lemma_too_long_exactly(s, 10);
}

/// A source that ends while every byte so far carries the continuation flag
/// never yields a value: it is a short read, or too long once the domain's
/// byte budget is spent.
pub proof fn lemma_truncated_varint_fails(s: Seq<u8>, max: nat)
    requires
        max >= 1,
        forall|j: int| 0 <= j < s.len() ==> s[j] >= 128,
    ensures
        s.len() < max ==> varint_extent(s, max) == Err::<nat, VarintError>(VarintError::ShortRead),
        s.len() >= max ==> varint_extent(s, max) == Err::<nat, VarintError>(VarintError::VarintTooLong),
        decode_varint(s, max) is Err,
{
    if s.len() < max {
        lemma_extent_at(s, max, s.len());
    } else {
        lemma_extent_at(s, max, (max - 1) as nat);
    }
}

} // verus!
