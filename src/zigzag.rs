//! The zig-zag mapping between signed and unsigned integers of one width.
use vstd::prelude::*;

verus! {

/// The zig-zag image of a signed integer: 0, -1, 1, -2, 2, ... map to 0, 1, 2, 3, 4, ...
pub open spec fn zigzag(v: int) -> nat {
    if v >= 0 {
        (2 * v) as nat
    } else {
        (-2 * v - 1) as nat
    }
}

/// The signed integer whose zig-zag image is `u`.
pub open spec fn unzigzag(u: nat) -> int {
    if u % 2 == 0 {
        (u / 2) as int
    } else {
        -((u + 1) / 2)
    }
}

/// Restoring the zig-zag image of any integer gives the integer back.
pub proof fn lemma_zigzag_round_trip(v: int)
    ensures
        unzigzag(zigzag(v)) == v,
{
}

/// Maps a 32-bit signed integer to the unsigned domain: `(v << 1) ^ (v >> 31)`.
pub fn encode_zigzag32(v: i32) -> (r: u32)
    ensures
        r == zigzag(v as int),
{
    let m: i32 = (v << 1) ^ (v >> 31);
    assert((v >= 0 ==> m as u32 == 2 * v) && (v < 0 ==> m as u32 == -2 * v - 1)) by (bit_vector)
        requires
            m == (v << 1) ^ (v >> 31),
    ;
    #[verifier::truncate]
    (m as u32)
}

/// Restores a 32-bit signed integer from its zig-zag image: `(u >> 1) ^ -(u & 1)`.
pub fn decode_zigzag32(u: u32) -> (r: i32)
    ensures
        r == unzigzag(u as nat),
{
    let half_bits: u32 = u >> 1;
    let low_bit: u32 = u & 1;
    assert(half_bits <= 0x7fff_ffff && low_bit <= 1) by (bit_vector)
        requires
            half_bits == u >> 1,
            low_bit == u & 1,
    ;
    let sign: i32 = -(low_bit as i32);
    let r: i32 = (half_bits as i32) ^ sign;
    assert((u % 2 == 0 ==> r == u / 2) && (u % 2 == 1 ==> r == -((u + 1) / 2))) by (bit_vector)
        requires
            half_bits == u >> 1,
            low_bit == u & 1,
            sign == -(low_bit as int),
            r == (half_bits as i32) ^ sign,
    ;
    r
}

/// Maps a 64-bit signed integer to the unsigned domain: `(v << 1) ^ (v >> 63)`.
pub fn encode_zigzag64(v: i64) -> (r: u64)
    ensures
        r == zigzag(v as int),
{
    let m: i64 = (v << 1) ^ (v >> 63);
    assert((v >= 0 ==> m as u64 == 2 * v) && (v < 0 ==> m as u64 == -2 * v - 1)) by (bit_vector)
        requires
            m == (v << 1) ^ (v >> 63),
    ;
    #[verifier::truncate]
    (m as u64)
}

/// Restores a 64-bit signed integer from its zig-zag image: `(u >> 1) ^ -(u & 1)`.
pub fn decode_zigzag64(u: u64) -> (r: i64)
    ensures
        r == unzigzag(u as nat),
{
    let half_bits: u64 = u >> 1;
    let low_bit: u64 = u & 1;
    assert(half_bits <= 0x7fff_ffff_ffff_ffff && low_bit <= 1) by (bit_vector)
        requires
            half_bits == u >> 1,
            low_bit == u & 1,
    ;
    let sign: i64 = -(low_bit as i64);
    let r: i64 = (half_bits as i64) ^ sign;
    assert((u % 2 == 0 ==> r == u / 2) && (u % 2 == 1 ==> r == -((u + 1) / 2))) by (bit_vector)
        requires
            half_bits == u >> 1,
            low_bit == u & 1,
            sign == -(low_bit as int),
            r == (half_bits as i64) ^ sign,
    ;
    r
}

} // verus!
