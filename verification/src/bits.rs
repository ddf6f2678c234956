//! Two's-complement readings of bit patterns, stated over unbounded integers.
//!
//! A pattern of `n` bits is the residue of a number modulo `2^n`. Read as
//! unsigned it is the residue in `0 .. 2^n`; read as signed it is the residue
//! in `-2^(n-1) .. 2^(n-1)`. Widening with sign extension, truncation and
//! reinterpretation are all instances of these two readings, and the lemmas of
//! this module tie each machine cast that the conversions use to them.

use vstd::prelude::*;

verus! {

/// `2^32`, the number of 32-bit patterns.
pub open spec fn two_to_32() -> int {
    0x1_0000_0000
}

/// `2^64`, the number of 64-bit patterns.
pub open spec fn two_to_64() -> int {
    0x1_0000_0000_0000_0000
}

/// `2^128`, the number of 128-bit patterns.
pub open spec fn two_to_128() -> int {
    0x1_0000_0000_0000_0000_0000_0000_0000_0000int
}

/// The unsigned reading of the low bits of `x`: the residue of `x` modulo
/// `modulus` that lies in `0 .. modulus`.
pub open spec fn unsigned_residue(x: int, modulus: int) -> int
    recommends
        modulus > 0,
{
    x % modulus
}

/// The signed reading of the low bits of `x`: the residue of `x` modulo
/// `modulus` that lies in `-modulus/2 .. modulus/2`.
pub open spec fn signed_residue(x: int, modulus: int) -> int
    recommends
        modulus > 0,
{
    let r = x % modulus;
    if 2 * r < modulus {
        r
    } else {
        r - modulus
    }
}

/// Sign extension of a 32-bit signed integer into 128 bits.
pub proof fn lemma_i32_as_u128(v: i32)
    ensures
        v as u128 == unsigned_residue(v as int, two_to_128()),
{
    assert(v >= 0 ==> v as u128 == v) by (bit_vector);
    assert(v < 0 ==> v as u128 == v + 0x1_0000_0000_0000_0000_0000_0000_0000_0000)
        by (bit_vector);
}

/// Sign extension of a 64-bit signed integer into 128 bits.
pub proof fn lemma_i64_as_u128(v: i64)
    ensures
        v as u128 == unsigned_residue(v as int, two_to_128()),
{
    assert(v >= 0 ==> v as u128 == v) by (bit_vector);
    assert(v < 0 ==> v as u128 == v + 0x1_0000_0000_0000_0000_0000_0000_0000_0000)
        by (bit_vector);
}

/// Truncation of a 128-bit pattern to 32 bits, read as signed.
pub proof fn lemma_u128_as_i32(p: u128)
    ensures
        p as i32 == signed_residue(p as int, two_to_32()),
{
    assert(p % 0x1_0000_0000 < 0x8000_0000 ==> p as i32 == p % 0x1_0000_0000) by (bit_vector);
    assert(p % 0x1_0000_0000 >= 0x8000_0000 ==> p as i32 == p % 0x1_0000_0000 - 0x1_0000_0000)
        by (bit_vector);
}

/// Truncation of a 128-bit pattern to 64 bits, read as signed.
pub proof fn lemma_u128_as_i64(p: u128)
    ensures
        p as i64 == signed_residue(p as int, two_to_64()),
{
    assert(p % 0x1_0000_0000_0000_0000 < 0x8000_0000_0000_0000 ==> p as i64 == p
        % 0x1_0000_0000_0000_0000) by (bit_vector);
    assert(p % 0x1_0000_0000_0000_0000 >= 0x8000_0000_0000_0000 ==> p as i64 == p
        % 0x1_0000_0000_0000_0000 - 0x1_0000_0000_0000_0000) by (bit_vector);
}

/// Truncation of a 128-bit pattern to 32 bits, read as unsigned.
pub proof fn lemma_u128_as_u32(p: u128)
    ensures
        p as u32 == unsigned_residue(p as int, two_to_32()),
{
    assert(p as u32 == p % 0x1_0000_0000) by (bit_vector);
}

/// Truncation of a 128-bit pattern to 64 bits, read as unsigned.
pub proof fn lemma_u128_as_u64(p: u128)
    ensures
        p as u64 == unsigned_residue(p as int, two_to_64()),
{
    assert(p as u64 == p % 0x1_0000_0000_0000_0000) by (bit_vector);
}

/// Truncation of a 64-bit pattern to 32 bits, read as unsigned.
pub proof fn lemma_u64_as_u32(b: u64)
    ensures
        b as u32 == unsigned_residue(b as int, two_to_32()),
{
    assert(b as u32 == b % 0x1_0000_0000) by (bit_vector);
}

/// A 32-bit pattern read as signed.
pub proof fn lemma_u32_as_i32(b: u32)
    ensures
        b as i32 == signed_residue(b as int, two_to_32()),
{
    assert(b < 0x8000_0000 ==> b as i32 == b) by (bit_vector);
    assert(b >= 0x8000_0000 ==> b as i32 == b - 0x1_0000_0000) by (bit_vector);
}

/// A 64-bit pattern read as signed.
pub proof fn lemma_u64_as_i64(b: u64)
    ensures
        b as i64 == signed_residue(b as int, two_to_64()),
{
    assert(b < 0x8000_0000_0000_0000 ==> b as i64 == b) by (bit_vector);
    assert(b >= 0x8000_0000_0000_0000 ==> b as i64 == b - 0x1_0000_0000_0000_0000)
        by (bit_vector);
}

/// The 32-bit pattern of a signed integer, read as unsigned.
pub proof fn lemma_i32_as_u32(v: i32)
    ensures
        v as u32 == unsigned_residue(v as int, two_to_32()),
{
    assert(v >= 0 ==> v as u32 == v) by (bit_vector);
    assert(v < 0 ==> v as u32 == v + 0x1_0000_0000) by (bit_vector);
}

} // verus!
