use vstd::prelude::*;

verus! {

/// Little-endian 16-bit value of the two bytes of `s` at `i`.
pub open spec fn spec_le_u16(s: Seq<u8>, i: int) -> u16 {
    (s[i] as int + 256 * s[i + 1] as int) as u16
}

/// Little-endian 32-bit value of the four bytes of `s` at `i`.
pub open spec fn spec_le_u32(s: Seq<u8>, i: int) -> u32 {
    (s[i] as int + 256 * s[i + 1] as int + 65536 * s[i + 2] as int + 16777216 * s[i + 3] as int) as u32
}

/// Reads a little-endian `u16` at `offset`, or `None` past the end.
pub fn read_le_u16(s: &[u8], offset: usize) -> (r: Option<u16>)
    ensures
        r == (if offset + 2 <= s@.len() { Some(spec_le_u16(s@, offset as int)) } else { None::<u16> }),
{
    if offset > s.len() || s.len() - offset < 2 {
        return None;
    }
    Some(s[offset] as u16 + 256 * (s[offset + 1] as u16))
}

/// Reads a little-endian `u32` at `offset`, or `None` past the end.
pub fn read_le_u32(s: &[u8], offset: usize) -> (r: Option<u32>)
    ensures
        r == (if offset + 4 <= s@.len() { Some(spec_le_u32(s@, offset as int)) } else { None::<u32> }),
{
    if offset > s.len() || s.len() - offset < 4 {
        return None;
    }
    Some(s[offset] as u32 + 256 * (s[offset + 1] as u32) + 65536 * (s[offset + 2] as u32)
        + 16777216 * (s[offset + 3] as u32))
}

/// Little-endian 64-bit value of the eight bytes of `s` at `i`.
pub open spec fn spec_le_u64(s: Seq<u8>, i: int) -> u64 {
    (spec_le_u32(s, i) as int + 4294967296 * spec_le_u32(s, i + 4) as int) as u64
}

/// Reads a little-endian `u64` at `offset`, or `None` past the end.
pub fn read_le_u64(s: &[u8], offset: usize) -> (r: Option<u64>)
    ensures
        r == (if offset + 8 <= s@.len() { Some(spec_le_u64(s@, offset as int)) } else { None::<u64> }),
{
    if offset > s.len() || s.len() - offset < 8 {
        return None;
    }
    let lo = match read_le_u32(s, offset) {
        Some(v) => v,
        None => return None,
    };
    let hi = match read_le_u32(s, offset + 4) {
        Some(v) => v,
        None => return None,
    };
    Some(lo as u64 + 4294967296 * (hi as u64))
}

} // verus!
