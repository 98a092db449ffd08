use vstd::prelude::*;

verus! {

/// The unsigned integer held little-endian in `s[at]` and `s[at + 1]`.
pub open spec fn le_u16(s: Seq<u8>, at: int) -> int {
    s[at] + 256 * s[at + 1]
}

/// The unsigned integer held little-endian in the four bytes from `s[at]`.
pub open spec fn le_u32(s: Seq<u8>, at: int) -> int {
    s[at] + 256 * s[at + 1] + 65536 * s[at + 2] + 16777216 * s[at + 3]
}

/// The unsigned integer held little-endian in the eight bytes from `s[at]`.
pub open spec fn le_u64(s: Seq<u8>, at: int) -> int {
    s[at] + 256 * s[at + 1] + 65536 * s[at + 2] + 16777216 * s[at + 3] + 4294967296 * s[at + 4]
        + 1099511627776 * s[at + 5] + 281474976710656 * s[at + 6] + 72057594037927936 * s[at
        + 7]
}

/// Whether `data` begins with the eight-byte instruction selector `sel`.
pub open spec fn has_selector(data: Seq<u8>, sel: Seq<u8>) -> bool {
    sel.len() == 8 && data.len() >= 8 && data.subrange(0, 8) == sel
}

pub fn read_u16_le(data: &Vec<u8>, at: usize) -> (r: u16)
    requires
        at + 2 <= data@.len(),
    ensures
        r == le_u16(data@, at as int),
{
    let len = data.len();
    proof {
        assert(at + 2 <= len);
    }
    (data[at] as u16) + 256 * (data[at + 1] as u16)
}

pub fn read_u32_le(data: &Vec<u8>, at: usize) -> (r: u32)
    requires
        at + 4 <= data@.len(),
    ensures
        r == le_u32(data@, at as int),
{
    let len = data.len();
    proof {
        assert(at + 4 <= len);
    }
    (data[at] as u32) + 256 * (data[at + 1] as u32) + 65536 * (data[at + 2] as u32) + 16777216 * (
    data[at + 3] as u32)
}

pub fn read_u64_le(data: &Vec<u8>, at: usize) -> (r: u64)
    requires
        at + 8 <= data@.len(),
    ensures
        r == le_u64(data@, at as int),
{
    let len = data.len();
    proof {
        assert(at + 8 <= len);
    }
    (data[at] as u64) + 256 * (data[at + 1] as u64) + 65536 * (data[at + 2] as u64) + 16777216 * (
    data[at + 3] as u64) + 4294967296 * (data[at + 4] as u64) + 1099511627776 * (data[at
        + 5] as u64) + 281474976710656 * (data[at + 6] as u64) + 72057594037927936 * (data[at
        + 7] as u64)
}

/// Whether `data` begins with the selector `sel`.
pub fn starts_with_selector(data: &Vec<u8>, sel: &[u8; 8]) -> (r: bool)
    ensures
        r == has_selector(data@, sel@),
{
    if data.len() < 8 {
        return false;
    }
    let mut i: usize = 0;
    while i < 8
        invariant
            0 <= i <= 8,
            data@.len() >= 8,
            sel@.len() == 8,
            forall|j: int| 0 <= j < i ==> data@[j] == sel@[j],
        decreases 8 - i,
    {
        if data[i] != sel[i] {
            assert(data@.subrange(0, 8)[i as int] != sel@[i as int]);
            return false;
        }
        i = i + 1;
    }
    assert(data@.subrange(0, 8) =~= sel@);
    true
}

} // verus!
