//! Range checks on IEEE-754 values carried as their bit patterns.
//!
//! Sampling parameters are decimal fractions in the wire format. The library keeps them
//! as the raw IEEE-754 bit patterns (what `to_bits` gives) and decides range membership
//! on those patterns, exactly as IEEE-754 comparison would.
use vstd::prelude::*;

verus! {

/// Sign bit of a binary64 pattern (1 for negative values).
pub open spec fn binary64_sign(bits: u64) -> u64 {
    bits >> 63u64
}

/// Biased exponent field of a binary64 pattern.
pub open spec fn binary64_exponent(bits: u64) -> u64 {
    (bits >> 52u64) & 0x7ffu64
}

/// Fraction (mantissa) field of a binary64 pattern.
pub open spec fn binary64_fraction(bits: u64) -> u64 {
    bits & 0xf_ffff_ffff_ffffu64
}

/// The binary64 value lies in the closed interval from zero to two to the power `k`
/// (for `k` below 1024), as IEEE-754 comparison sees it: negative zero counts as zero,
/// NaN lies in no interval, and a positive value is at most that power of two exactly
/// when its exponent is smaller, or equal with an empty fraction.
pub open spec fn binary64_within_zero_and_pow2(bits: u64, k: u64) -> bool {
    ||| (binary64_exponent(bits) == 0 && binary64_fraction(bits) == 0)
    ||| (binary64_sign(bits) == 0 && (binary64_exponent(bits) < 1023 + k || (
    binary64_exponent(bits) == 1023 + k && binary64_fraction(bits) == 0)))
}

/// Sign bit of a binary32 pattern.
pub open spec fn binary32_sign(bits: u32) -> u32 {
    bits >> 31u32
}

/// Biased exponent field of a binary32 pattern.
pub open spec fn binary32_exponent(bits: u32) -> u32 {
    (bits >> 23u32) & 0xffu32
}

/// Fraction field of a binary32 pattern.
pub open spec fn binary32_fraction(bits: u32) -> u32 {
    bits & 0x7f_ffffu32
}

/// The binary32 value lies in the closed interval from zero to two to the power `k`
/// (for `k` below 128), in the sense of `binary64_within_zero_and_pow2`.
pub open spec fn binary32_within_zero_and_pow2(bits: u32, k: u32) -> bool {
    ||| (binary32_exponent(bits) == 0 && binary32_fraction(bits) == 0)
    ||| (binary32_sign(bits) == 0 && (binary32_exponent(bits) < 127 + k || (
    binary32_exponent(bits) == 127 + k && binary32_fraction(bits) == 0)))
}

/// Whether the binary64 value lies between zero and two, bounds included.
pub fn binary64_within_zero_and_two(bits: u64) -> (res: bool)
    ensures
        res == binary64_within_zero_and_pow2(bits, 1),
{
    let res = bits <= 0x4000_0000_0000_0000u64 || bits == 0x8000_0000_0000_0000u64;
    assert(res == (((bits >> 52u64) & 0x7ffu64 == 0 && bits & 0xf_ffff_ffff_ffffu64 == 0) || (
    bits >> 63u64 == 0 && ((bits >> 52u64) & 0x7ffu64 < 1024 || ((bits >> 52u64) & 0x7ffu64
        == 1024 && bits & 0xf_ffff_ffff_ffffu64 == 0))))) by (bit_vector)
        requires
            res == (bits <= 0x4000_0000_0000_0000u64 || bits == 0x8000_0000_0000_0000u64),
    ;
    res
}

/// Whether the binary64 value lies between zero and one, bounds included.
pub fn binary64_within_zero_and_one(bits: u64) -> (res: bool)
    ensures
        res == binary64_within_zero_and_pow2(bits, 0),
{
    let res = bits <= 0x3ff0_0000_0000_0000u64 || bits == 0x8000_0000_0000_0000u64;
    assert(res == (((bits >> 52u64) & 0x7ffu64 == 0 && bits & 0xf_ffff_ffff_ffffu64 == 0) || (
    bits >> 63u64 == 0 && ((bits >> 52u64) & 0x7ffu64 < 1023 || ((bits >> 52u64) & 0x7ffu64
        == 1023 && bits & 0xf_ffff_ffff_ffffu64 == 0))))) by (bit_vector)
        requires
            res == (bits <= 0x3ff0_0000_0000_0000u64 || bits == 0x8000_0000_0000_0000u64),
    ;
    res
}

/// Whether the binary32 value lies between zero and two, bounds included.
pub fn binary32_within_zero_and_two(bits: u32) -> (res: bool)
    ensures
        res == binary32_within_zero_and_pow2(bits, 1),
{
    let res = bits <= 0x4000_0000u32 || bits == 0x8000_0000u32;
    assert(res == (((bits >> 23u32) & 0xffu32 == 0 && bits & 0x7f_ffffu32 == 0) || (bits
        >> 31u32 == 0 && ((bits >> 23u32) & 0xffu32 < 128 || ((bits >> 23u32) & 0xffu32 == 128
        && bits & 0x7f_ffffu32 == 0))))) by (bit_vector)
        requires
            res == (bits <= 0x4000_0000u32 || bits == 0x8000_0000u32),
    ;
    res
}

} // verus!
