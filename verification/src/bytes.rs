use vstd::prelude::*;

verus! {

/// Little-endian value of the two bytes of `s` starting at `i`.
pub open spec fn le_u16(s: Seq<u8>, i: int) -> int {
    s[i] + s[i + 1] * 0x100
}

/// Little-endian value of the four bytes of `s` starting at `i`.
pub open spec fn le_u32(s: Seq<u8>, i: int) -> int {
    s[i] + s[i + 1] * 0x100 + s[i + 2] * 0x1_0000 + s[i + 3] * 0x100_0000
}

/// Little-endian value of the eight bytes of `s` starting at `i`.
pub open spec fn le_u64(s: Seq<u8>, i: int) -> int {
    s[i] + s[i + 1] * 0x100 + s[i + 2] * 0x1_0000 + s[i + 3] * 0x100_0000
        + s[i + 4] * 0x1_0000_0000 + s[i + 5] * 0x100_0000_0000
        + s[i + 6] * 0x1_0000_0000_0000 + s[i + 7] * 0x100_0000_0000_0000
}

/// Two's-complement reading of the eight little-endian bytes of `s` at `i`.
pub open spec fn le_i64(s: Seq<u8>, i: int) -> int {
    let u = le_u64(s, i);
    if u < 0x8000_0000_0000_0000 {
        u
    } else {
        u - 0x1_0000_0000_0000_0000
    }
}

/// Reads a little-endian `u16` at `offset`.
pub fn read_u16_le(data: &[u8], offset: usize) -> (v: u16)
    requires
        offset + 2 <= data@.len(),
    ensures
        v == le_u16(data@, offset as int),
{
    data[offset] as u16 + data[offset + 1] as u16 * 0x100
}

/// Reads a little-endian `u32` at `offset`.
pub fn read_u32_le(data: &[u8], offset: usize) -> (v: u32)
    requires
        offset + 4 <= data@.len(),
    ensures
        v == le_u32(data@, offset as int),
{
    data[offset] as u32 + data[offset + 1] as u32 * 0x100 + data[offset + 2] as u32 * 0x1_0000
        + data[offset + 3] as u32 * 0x100_0000
}

/// Reads a little-endian `u64` at `offset`.
pub fn read_u64_le(data: &[u8], offset: usize) -> (v: u64)
    requires
        offset + 8 <= data@.len(),
    ensures
        v == le_u64(data@, offset as int),
{
    data[offset] as u64 + data[offset + 1] as u64 * 0x100 + data[offset + 2] as u64 * 0x1_0000
        + data[offset + 3] as u64 * 0x100_0000 + data[offset + 4] as u64 * 0x1_0000_0000
        + data[offset + 5] as u64 * 0x100_0000_0000 + data[offset + 6] as u64
        * 0x1_0000_0000_0000 + data[offset + 7] as u64 * 0x100_0000_0000_0000
}

/// Reads a little-endian two's-complement `i64` at `offset`.
pub fn read_i64_le(data: &[u8], offset: usize) -> (v: i64)
    requires
        offset + 8 <= data@.len(),
    ensures
        v == le_i64(data@, offset as int),
{
    let u = read_u64_le(data, offset);
    if u < 0x8000_0000_0000_0000 {
        u as i64
    } else {
        let high: u64 = u - 0x8000_0000_0000_0000;
        high as i64 - 0x7fff_ffff_ffff_ffff - 1
    }
}

/// Whether the `len` bytes of `data` from `start` are exactly `expected`.
pub fn region_equals(data: &[u8], start: usize, len: usize, expected: &[u8]) -> (r: bool)
    requires
        start + len <= data@.len(),
    ensures
        r == (data@.subrange(start as int, start + len) == expected@),
{
    if expected.len() != len {
        assert(data@.subrange(start as int, start + len).len() != expected@.len());
        return false;
    }
    let mut i: usize = 0;
    while i < len
        invariant
            i <= len,
            start + len <= data@.len(),
            data@.len() == data.len(),
            expected@.len() == len,
            forall|j: int| 0 <= j < i ==> data@[start + j] == expected@[j],
        decreases len - i,
    {
        if data[start + i] != expected[i] {
            assert(data@.subrange(start as int, start + len)[i as int] != expected@[i as int]);
            return false;
        }
        i = i + 1;
    }
    assert(data@.subrange(start as int, start + len) =~= expected@);
    true
}

/// Whether two 32-byte keys are equal.
pub fn keys_equal(a: &[u8; 32], b: &[u8; 32]) -> (r: bool)
    ensures
        r == (a@ == b@),
{
    let mut i: usize = 0;
    while i < 32
        invariant
            i <= 32,
            a@.len() == 32,
            b@.len() == 32,
            forall|j: int| 0 <= j < i ==> a@[j] == b@[j],
        decreases 32 - i,
    {
        if a[i] != b[i] {
            return false;
        }
        i = i + 1;
    }
    assert(a@ =~= b@);
    true
}

} // verus!
