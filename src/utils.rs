//! Big-endian field extraction from response buffers.
use vstd::prelude::*;

verus! {

/// The unsigned big-endian value of the two bytes at `i` and `i + 1`.
pub open spec fn be_u16(s: Seq<u8>, i: int) -> int {
    s[i] * 256 + s[i + 1]
}

/// The two's-complement value of the two bytes at `i` and `i + 1`.
pub open spec fn be_i16(s: Seq<u8>, i: int) -> int {
    if s[i] < 128 {
        be_u16(s, i)
    } else {
        be_u16(s, i) - 65536
    }
}

/// The unsigned big-endian value of the four bytes starting at `i`.
pub open spec fn be_u32(s: Seq<u8>, i: int) -> int {
    be_u16(s, i) * 65536 + be_u16(s, i + 2)
}

/// The unsigned big-endian value of the eight bytes starting at `i`.
pub open spec fn be_u64(s: Seq<u8>, i: int) -> int {
    be_u32(s, i) * 0x1_0000_0000 + be_u32(s, i + 4)
}

/// The byte at `index` read as a flag: zero is false, anything else true.
pub fn get_bool_from_buf(buf: &[u8], index: usize) -> (r: bool)
    requires
        index < buf.len(),
    ensures
        r == (buf@[index as int] != 0),
{
    buf[index] != 0
}

/// The byte at `index`.
pub fn get_u8_from_buf(buf: &[u8], index: usize) -> (r: u8)
    requires
        index < buf.len(),
    ensures
        r == buf@[index as int],
{
    buf[index]
}

/// The big-endian unsigned 16-bit value at `index`.
pub fn get_u16_from_buf(buf: &[u8], index: usize) -> (r: u16)
    requires
        index + 2 <= buf.len(),
    ensures
        r == be_u16(buf@, index as int),
{
    (buf[index] as u16) * 256 + (buf[index + 1] as u16)
}

/// The big-endian two's-complement 16-bit value at `index`.
pub fn get_i16_from_buf(buf: &[u8], index: usize) -> (r: i16)
    requires
        index + 2 <= buf.len(),
    ensures
        r == be_i16(buf@, index as int),
{
    let u = get_u16_from_buf(buf, index);
    if u < 0x8000 {
        u as i16
    } else {
        (u as i32 - 65536) as i16
    }
}

/// The big-endian unsigned 32-bit value at `index`.
pub fn get_u32_from_buf(buf: &[u8], index: usize) -> (r: u32)
    requires
        index + 4 <= buf.len(),
    ensures
        r == be_u32(buf@, index as int),
{
    let hi = get_u16_from_buf(buf, index);
    let lo = get_u16_from_buf(buf, index + 2);
    (hi as u32) * 65536 + (lo as u32)
}

/// The big-endian unsigned 64-bit value at `index`.
pub fn get_u64_from_buf(buf: &[u8], index: usize) -> (r: u64)
    requires
        index + 8 <= buf.len(),
    ensures
        r == be_u64(buf@, index as int),
{
    let hi = get_u32_from_buf(buf, index);
    let lo = get_u32_from_buf(buf, index + 4);
    (hi as u64) * 0x1_0000_0000 + (lo as u64)
}

} // verus!
