//! Little-endian integer readers over byte buffers, with their
//! mathematical specifications, plus trailing-zero trimming for the
//! fixed-width text fields of a record.

use vstd::prelude::*;

verus! {

/// The unsigned 16-bit little-endian value at byte offset `off`.
pub open spec fn spec_le_u16(b: Seq<u8>, off: int) -> u16
    recommends
        0 <= off,
        off + 2 <= b.len(),
{
    (b[off] + b[off + 1] * 0x100) as u16
}

/// The unsigned 32-bit little-endian value at byte offset `off`.
pub open spec fn spec_le_u32(b: Seq<u8>, off: int) -> u32
    recommends
        0 <= off,
        off + 4 <= b.len(),
{
    (b[off] + b[off + 1] * 0x100 + b[off + 2] * 0x10000 + b[off + 3] * 0x1000000) as u32
}

/// The signed 16-bit little-endian value at byte offset `off`
/// (two's complement of the unsigned reading).
pub open spec fn spec_le_i16(b: Seq<u8>, off: int) -> i16 {
    let v = spec_le_u16(b, off);
    if v >= 0x8000 {
        (v - 0x10000) as i16
    } else {
        v as i16
    }
}

/// The signed 32-bit little-endian value at byte offset `off`
/// (two's complement of the unsigned reading).
pub open spec fn spec_le_i32(b: Seq<u8>, off: int) -> i32 {
    let v = spec_le_u32(b, off);
    if v >= 0x8000_0000 {
        (v - 0x1_0000_0000) as i32
    } else {
        v as i32
    }
}

/// Reads the unsigned 16-bit little-endian value at byte offset `off`.
pub fn read_u16(b: &[u8], off: usize) -> (r: u16)
    requires
        off + 2 <= b@.len(),
    ensures
        r == spec_le_u16(b@, off as int),
{
    b[off] as u16 + b[off + 1] as u16 * 0x100
}

/// Reads the unsigned 32-bit little-endian value at byte offset `off`.
pub fn read_u32(b: &[u8], off: usize) -> (r: u32)
    requires
        off + 4 <= b@.len(),
    ensures
        r == spec_le_u32(b@, off as int),
{
    b[off] as u32 + b[off + 1] as u32 * 0x100 + b[off + 2] as u32 * 0x10000 + b[off + 3] as u32
        * 0x1000000
}

/// Reads the signed 16-bit little-endian value at byte offset `off`.
pub fn read_i16(b: &[u8], off: usize) -> (r: i16)
    requires
        off + 2 <= b@.len(),
    ensures
        r == spec_le_i16(b@, off as int),
{
    let v: u16 = read_u16(b, off);
    if v >= 0x8000 {
        (v as i32 - 0x10000) as i16
    } else {
        v as i16
    }
}

/// Reads the signed 32-bit little-endian value at byte offset `off`.
pub fn read_i32(b: &[u8], off: usize) -> (r: i32)
    requires
        off + 4 <= b@.len(),
    ensures
        r == spec_le_i32(b@, off as int),
{
    let v: u32 = read_u32(b, off);
    if v >= 0x8000_0000 {
        (v as i64 - 0x1_0000_0000) as i32
    } else {
        v as i32
    }
}

/// `s` with every trailing zero byte removed.
pub open spec fn spec_trim_zeros(s: Seq<u8>) -> Seq<u8>
    decreases s.len(),
{
    if s.len() > 0 && s[s.len() - 1] == 0 {
        spec_trim_zeros(s.drop_last())
    } else {
        s
    }
}

/// Copies `b[start..end]` with trailing zero bytes dropped.
pub fn trimmed_range(b: &[u8], start: usize, end: usize) -> (r: Vec<u8>)
    requires
        start <= end <= b@.len(),
    ensures
        r@ == spec_trim_zeros(b@.subrange(start as int, end as int)),
{
    let mut stop: usize = end;
    while stop > start && b[stop - 1] == 0
        invariant
            start <= stop <= end <= b@.len(),
            spec_trim_zeros(b@.subrange(start as int, end as int)) == spec_trim_zeros(
                b@.subrange(start as int, stop as int),
            ),
        decreases stop,
    {
        proof {
            assert(b@.subrange(start as int, stop as int).drop_last() == b@.subrange(
                start as int,
                stop as int - 1,
            ));
        }
        stop = stop - 1;
    }
    proof {
        assert(spec_trim_zeros(b@.subrange(start as int, stop as int)) == b@.subrange(
            start as int,
            stop as int,
        ));
    }
    let mut r: Vec<u8> = Vec::new();
    let mut i: usize = start;
    while i < stop
        invariant
            start <= i <= stop <= b@.len(),
            r@ == b@.subrange(start as int, i as int),
        decreases stop - i,
    {
        r.push(b[i]);
        proof {
            assert(r@ == b@.subrange(start as int, i as int + 1));
        }
        i = i + 1;
    }
    r
}

} // verus!
