//! Fixed-width rotations used by the CMVS ciphers.
use vstd::prelude::*;

verus! {

/// `x.rotate_right(n)` for an 8-bit value and `0 < n < 8`.
pub open spec fn spec_rotr8(x: u8, n: u32) -> u8 {
    ((x >> n) | (x << (8 - n))) as u8
}

/// `x.rotate_right(n)` for a 32-bit value and `0 < n < 32`.
pub open spec fn spec_rotr32(x: u32, n: u32) -> u32 {
    ((x >> n) | (x << (32 - n))) as u32
}

/// `x.rotate_left(n)` for a 32-bit value and `0 < n < 32`.
pub open spec fn spec_rotl32(x: u32, n: u32) -> u32 {
    ((x << n) | (x >> (32 - n))) as u32
}

/// Rotates an 8-bit value right by `n` places.
pub fn rotr8(x: u8, n: u32) -> (r: u8)
    requires
        0 < n < 8,
    ensures
        r == spec_rotr8(x, n),
{
    (x >> n) | (x << (8 - n))
}

/// Rotates a 32-bit value right by `n` places.
pub fn rotr32(x: u32, n: u32) -> (r: u32)
    requires
        0 < n < 32,
    ensures
        r == spec_rotr32(x, n),
{
    (x >> n) | (x << (32 - n))
}

/// Rotates a 32-bit value left by `n` places.
pub fn rotl32(x: u32, n: u32) -> (r: u32)
    requires
        0 < n < 32,
    ensures
        r == spec_rotl32(x, n),
{
    (x << n) | (x >> (32 - n))
}

} // verus!
