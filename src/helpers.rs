//! Stateless 64-bit mixing primitives of SHA-512.
use vstd::prelude::*;

verus! {

/// Circular right rotation of `x` by `n` bit positions, `0 < n < 64`.
pub open spec fn rotr(x: u64, n: u32) -> u64 {
    (x >> n) | (x << (64 - n) as u32)
}

/// The message-schedule function sigma0: ROTR 1, ROTR 8, SHR 7.
pub open spec fn small_sigma0(x: u64) -> u64 {
    rotr(x, 1) ^ rotr(x, 8) ^ (x >> 7u32)
}

/// The message-schedule function sigma1: ROTR 19, ROTR 61, SHR 6.
pub open spec fn small_sigma1(x: u64) -> u64 {
    rotr(x, 19) ^ rotr(x, 61) ^ (x >> 6u32)
}

/// The compression function Sigma0: ROTR 28, ROTR 34, ROTR 39.
pub open spec fn big_sigma0(x: u64) -> u64 {
    rotr(x, 28) ^ rotr(x, 34) ^ rotr(x, 39)
}

/// The compression function Sigma1: ROTR 14, ROTR 18, ROTR 41.
pub open spec fn big_sigma1(x: u64) -> u64 {
    rotr(x, 14) ^ rotr(x, 18) ^ rotr(x, 41)
}

/// Bitwise choice: each bit of `y` where `x` is set, else of `z`.
pub open spec fn ch(x: u64, y: u64, z: u64) -> u64 {
    (x & y) ^ (!x & z)
}

/// Bitwise majority of three words.
pub open spec fn maj(x: u64, y: u64, z: u64) -> u64 {
    (x & y) ^ (x & z) ^ (y & z)
}

/// Rotates `val` right by `shift` bits.
pub fn rotate_right(val: u64, shift: u32) -> (r: u64)
    requires
        0 < shift < 64,
    ensures
        r == rotr(val, shift),
{
    (val >> shift) | (val << (64 - shift))
}

/// sigma0 of the message schedule.
pub fn intermediate_hash_sigma0(val: u64) -> (r: u64)
    ensures
        r == small_sigma0(val),
{
    rotate_right(val, 1) ^ rotate_right(val, 8) ^ (val >> 7u32)
}

/// sigma1 of the message schedule.
pub fn intermediate_hash_sigma1(val: u64) -> (r: u64)
    ensures
        r == small_sigma1(val),
{
    rotate_right(val, 19) ^ rotate_right(val, 61) ^ (val >> 6u32)
}

/// Sigma0 of the compression rounds.
pub fn final_hash_sigma0(val: u64) -> (r: u64)
    ensures
        r == big_sigma0(val),
{
    rotate_right(val, 28) ^ rotate_right(val, 34) ^ rotate_right(val, 39)
}

/// Sigma1 of the compression rounds; the three rotations combine by XOR.
pub fn final_hash_sigma1(val: u64) -> (r: u64)
    ensures
        r == big_sigma1(val),
{
    rotate_right(val, 14) ^ rotate_right(val, 18) ^ rotate_right(val, 41)
}

/// If `x` then `y` else `z`, bit by bit.
pub fn choice(x: u64, y: u64, z: u64) -> (r: u64)
    ensures
        r == ch(x, y, z),
{
    (x & y) ^ (!x & z)
}

/// Majority of `x`, `y` and `z`, bit by bit.
pub fn majority(x: u64, y: u64, z: u64) -> (r: u64)
    ensures
        r == maj(x, y, z),
{
    (x & y) ^ (x & z) ^ (y & z)
}

} // verus!
