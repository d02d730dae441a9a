//! Arithmetic descriptions of the word-level encodings.

use vstd::prelude::*;

verus! {

/// 2^32, the number of values of a 32-bit word.
pub open spec fn word_modulus() -> int {
    0x1_0000_0000
}

/// 2^64, the number of values of a 64-bit integer.
pub open spec fn double_word_modulus() -> int {
    0x1_0000_0000_0000_0000
}

/// The low 32 bits of a 64-bit pattern.
pub open spec fn low_word(bits: u64) -> u32 {
    (bits % 0x1_0000_0000) as u32
}

/// The high 32 bits of a 64-bit pattern.
pub open spec fn high_word(bits: u64) -> u32 {
    (bits / 0x1_0000_0000) as u32
}

/// The 64-bit pattern whose low half is `low` and whose high half is `high`.
pub open spec fn join_words(low: u32, high: u32) -> u64 {
    (high * word_modulus() + low) as u64
}

/// The two's-complement bit pattern of a signed 64-bit integer.
pub open spec fn bits_of_i64(x: i64) -> u64 {
    if x >= 0 {
        x as u64
    } else {
        (x + double_word_modulus()) as u64
    }
}

/// The signed 64-bit integer whose two's-complement pattern is `bits`.
pub open spec fn i64_of_bits(bits: u64) -> i64 {
    if bits < 0x8000_0000_0000_0000 {
        bits as i64
    } else {
        (bits - double_word_modulus()) as i64
    }
}

/// The 32-bit word that an integer wraps to: its value modulo 2^32.
pub open spec fn wrap_to_word(v: int) -> u32 {
    (v % word_modulus()) as u32
}

/// The value of the low bits of `v` read as a signed integer of `m` values
/// (`m` a power of two): `v` modulo `m`, shifted into `[-m/2, m/2)`.
pub open spec fn signed_wrap(v: int, m: int) -> int {
    if v % m < m / 2 {
        v % m
    } else {
        v % m - m
    }
}

/// Splitting a 64-bit pattern into its halves and joining them again gives
/// the pattern back.
pub proof fn lemma_join_split(bits: u64)
    ensures
        join_words(low_word(bits), high_word(bits)) == bits,
{
}

/// Joining two halves and splitting the result gives the halves back.
pub proof fn lemma_split_join(low: u32, high: u32)
    ensures
        low_word(join_words(low, high)) == low,
        high_word(join_words(low, high)) == high,
{
}

/// Two's complement is a bijection between `i64` and `u64`.
pub proof fn lemma_i64_bits(x: i64, bits: u64)
    ensures
        i64_of_bits(bits_of_i64(x)) == x,
        bits_of_i64(i64_of_bits(bits)) == bits,
{
}

} // verus!
