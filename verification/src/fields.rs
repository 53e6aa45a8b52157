//! Primitive field decoders: little-endian integers and trailing-space
//! trimming for fixed-width padded text fields.

use vstd::prelude::*;

verus! {

/// The value of a 4-byte little-endian unsigned integer.
pub open spec fn le_u32_of(s: Seq<u8>) -> int
    recommends
        s.len() == 4,
{
    s[0] + s[1] * 0x100 + s[2] * 0x1_0000 + s[3] * 0x100_0000
}

/// The value of an 8-byte little-endian unsigned integer.
pub open spec fn le_u64_of(s: Seq<u8>) -> int
    recommends
        s.len() == 8,
{
    s[0] + s[1] * 0x100 + s[2] * 0x1_0000 + s[3] * 0x100_0000 + s[4] * 0x1_0000_0000 + s[5]
        * 0x100_0000_0000 + s[6] * 0x1_0000_0000_0000 + s[7] * 0x100_0000_0000_0000
}

/// The value of an 8-byte little-endian two's-complement signed integer.
pub open spec fn le_i64_of(s: Seq<u8>) -> int
    recommends
        s.len() == 8,
{
    if le_u64_of(s) < 0x8000_0000_0000_0000 {
        le_u64_of(s)
    } else {
        le_u64_of(s) - 0x1_0000_0000_0000_0000
    }
}

/// The sequence with all trailing ASCII space bytes removed.
pub open spec fn trim_trailing_spaces(s: Seq<u8>) -> Seq<u8>
    decreases s.len(),
{
    if s.len() > 0 && s[s.len() - 1] == 0x20 {
        trim_trailing_spaces(s.drop_last())
    } else {
        s
    }
}

/// Reads a 4-byte little-endian unsigned integer at `off`.
pub fn read_le_u32(input: &[u8], off: usize) -> (x: u32)
    requires
        off + 4 <= input@.len(),
    ensures
        x == le_u32_of(input@.subrange(off as int, off as int + 4)),
{
    let b0 = input[off];
    let b1 = input[off + 1];
    let b2 = input[off + 2];
    let b3 = input[off + 3];
    let x: u32 = (b0 as u32) + (b1 as u32) * 0x100 + (b2 as u32) * 0x1_0000 + (b3 as u32)
        * 0x100_0000;
    proof {
        let s = input@.subrange(off as int, off as int + 4);
        assert(s[0] == b0 && s[1] == b1 && s[2] == b2 && s[3] == b3);
    }
    x
}

/// Reads an 8-byte little-endian unsigned integer at `off`.
fn read_le_u64(input: &[u8], off: usize) -> (x: u64)
    requires
        off + 8 <= input@.len(),
    ensures
        x == le_u64_of(input@.subrange(off as int, off as int + 8)),
{
    let b0 = input[off];
    let b1 = input[off + 1];
    let b2 = input[off + 2];
    let b3 = input[off + 3];
    let b4 = input[off + 4];
    let b5 = input[off + 5];
    let b6 = input[off + 6];
    let b7 = input[off + 7];
    let x: u64 = (b0 as u64) + (b1 as u64) * 0x100 + (b2 as u64) * 0x1_0000 + (b3 as u64)
        * 0x100_0000 + (b4 as u64) * 0x1_0000_0000 + (b5 as u64) * 0x100_0000_0000 + (b6 as u64)
        * 0x1_0000_0000_0000 + (b7 as u64) * 0x100_0000_0000_0000;
    proof {
        let s = input@.subrange(off as int, off as int + 8);
        assert(s[0] == b0 && s[1] == b1 && s[2] == b2 && s[3] == b3 && s[4] == b4 && s[5] == b5
            && s[6] == b6 && s[7] == b7);
    }
    x
}

/// Reads an 8-byte little-endian two's-complement signed integer at `off`.
pub fn read_le_i64(input: &[u8], off: usize) -> (x: i64)
    requires
        off + 8 <= input@.len(),
    ensures
        x == le_i64_of(input@.subrange(off as int, off as int + 8)),
{
    let lo = read_le_u64(input, off);
    if lo < 0x8000_0000_0000_0000 {
        lo as i64
    } else {
        i64::MIN + ((lo - 0x8000_0000_0000_0000) as i64)
    }
}

} // verus!
