//! Little-endian field access inside a byte buffer.
//!
//! Both context records are flat byte buffers with numeric fields stored
//! little-endian at fixed offsets. The readers and writers here are the only
//! primitives the engines use to touch a record: each is specified against
//! the `le*_at` spec functions, and each writer pins down every byte it does
//! not touch, so a caller can reason field-by-field about a record after a
//! sequence of writes.

use vstd::prelude::*;
use vstd::bytes::{
    lemma_auto_spec_u128_to_from_le_bytes, lemma_auto_spec_u32_to_from_le_bytes,
    lemma_auto_spec_u64_to_from_le_bytes, spec_u128_from_le_bytes, spec_u32_from_le_bytes,
    spec_u64_from_le_bytes, u128_from_le_bytes, u128_to_le_bytes, u32_from_le_bytes,
    u32_to_le_bytes, u64_from_le_bytes, u64_to_le_bytes,
};
use vstd::slice::slice_subrange;

verus! {

/// The `u32` stored little-endian at offset `off` of `s`.
pub open spec fn le32_at(s: Seq<u8>, off: int) -> u32 {
    spec_u32_from_le_bytes(s.subrange(off, off + 4))
}

/// The `u64` stored little-endian at offset `off` of `s`.
pub open spec fn le64_at(s: Seq<u8>, off: int) -> u64 {
    spec_u64_from_le_bytes(s.subrange(off, off + 8))
}

/// The `u128` stored little-endian at offset `off` of `s`.
pub open spec fn le128_at(s: Seq<u8>, off: int) -> u128 {
    spec_u128_from_le_bytes(s.subrange(off, off + 16))
}

pub fn read_u32_at(data: &Vec<u8>, off: usize) -> (r: u32)
    requires
        off + 4 <= data.len(),
    ensures
        r == le32_at(data@, off as int),
{
    u32_from_le_bytes(slice_subrange(data.as_slice(), off, off + 4))
}

pub fn read_u64_at(data: &Vec<u8>, off: usize) -> (r: u64)
    requires
        off + 8 <= data.len(),
    ensures
        r == le64_at(data@, off as int),
{
    u64_from_le_bytes(slice_subrange(data.as_slice(), off, off + 8))
}

pub fn read_u128_at(data: &Vec<u8>, off: usize) -> (r: u128)
    requires
        off + 16 <= data.len(),
    ensures
        r == le128_at(data@, off as int),
{
    u128_from_le_bytes(slice_subrange(data.as_slice(), off, off + 16))
}

pub fn read_u32_slice_at(data: &[u8], off: usize) -> (r: u32)
    requires
        off + 4 <= data.len(),
    ensures
        r == le32_at(data@, off as int),
{
    u32_from_le_bytes(slice_subrange(data, off, off + 4))
}

pub fn read_u64_slice_at(data: &[u8], off: usize) -> (r: u64)
    requires
        off + 8 <= data.len(),
    ensures
        r == le64_at(data@, off as int),
{
    u64_from_le_bytes(slice_subrange(data, off, off + 8))
}

pub fn read_u128_slice_at(data: &[u8], off: usize) -> (r: u128)
    requires
        off + 16 <= data.len(),
    ensures
        r == le128_at(data@, off as int),
{
    u128_from_le_bytes(slice_subrange(data, off, off + 16))
}

/// Overwrites `data[off .. off + src.len()]` with `src`, leaving every other
/// byte unchanged.
pub fn splice_at(data: &mut Vec<u8>, off: usize, src: &Vec<u8>)
    requires
        off + src.len() <= old(data).len(),
    ensures
        final(data)@.len() == old(data)@.len(),
        final(data)@.subrange(off as int, off + src@.len()) == src@,
        forall|i: int|
            0 <= i < old(data)@.len() && !(off <= i < off + src@.len())
                ==> final(data)@[i] == old(data)@[i],
{
    let n = src.len();
    let mut i: usize = 0;
    while i < n
        invariant
            n == src@.len(),
            i <= n,
            off + n <= data.len(),
            data@.len() == old(data)@.len(),
            forall|j: int| 0 <= j < i ==> data@[off + j] == src@[j],
            forall|j: int|
                0 <= j < data@.len() && !(off <= j < off + i) ==> data@[j] == old(data)@[j],
        decreases n - i,
    {
        data.set(off + i, src[i]);
        i = i + 1;
    }
    proof {
        assert(data@.subrange(off as int, off + src@.len()) =~= src@);
    }
}

pub fn write_u32_at(data: &mut Vec<u8>, off: usize, v: u32)
    requires
        off + 4 <= old(data).len(),
    ensures
        final(data)@.len() == old(data)@.len(),
        le32_at(final(data)@, off as int) == v,
        forall|i: int|
            0 <= i < old(data)@.len() && !(off <= i < off + 4)
                ==> final(data)@[i] == old(data)@[i],
{
    let bytes = u32_to_le_bytes(v);
    splice_at(data, off, &bytes);
    proof {
        lemma_auto_spec_u32_to_from_le_bytes();
    }
}

pub fn write_u64_at(data: &mut Vec<u8>, off: usize, v: u64)
    requires
        off + 8 <= old(data).len(),
    ensures
        final(data)@.len() == old(data)@.len(),
        le64_at(final(data)@, off as int) == v,
        forall|i: int|
            0 <= i < old(data)@.len() && !(off <= i < off + 8)
                ==> final(data)@[i] == old(data)@[i],
{
    let bytes = u64_to_le_bytes(v);
    splice_at(data, off, &bytes);
    proof {
        lemma_auto_spec_u64_to_from_le_bytes();
    }
}

pub fn write_u128_at(data: &mut Vec<u8>, off: usize, v: u128)
    requires
        off + 16 <= old(data).len(),
    ensures
        final(data)@.len() == old(data)@.len(),
        le128_at(final(data)@, off as int) == v,
        forall|i: int|
            0 <= i < old(data)@.len() && !(off <= i < off + 16)
                ==> final(data)@[i] == old(data)@[i],
{
    let bytes = u128_to_le_bytes(v);
    splice_at(data, off, &bytes);
    proof {
        lemma_auto_spec_u128_to_from_le_bytes();
    }
}

/// Zeroes `data[start .. end]`, leaving every other byte unchanged.
pub fn zero_range(data: &mut Vec<u8>, start: usize, end: usize)
    requires
        start <= end <= old(data).len(),
    ensures
        final(data)@.len() == old(data)@.len(),
        forall|i: int| start <= i < end ==> final(data)@[i] == 0u8,
        forall|i: int|
            0 <= i < old(data)@.len() && !(start <= i < end)
                ==> final(data)@[i] == old(data)@[i],
{
    let mut i: usize = start;
    while i < end
        invariant
            start <= i <= end <= data.len(),
            data@.len() == old(data)@.len(),
            forall|j: int| start <= j < i ==> data@[j] == 0u8,
            forall|j: int|
                0 <= j < data@.len() && !(start <= j < i) ==> data@[j] == old(data)@[j],
        decreases end - i,
    {
        data.set(i, 0u8);
        i = i + 1;
    }
}

/// Copies `n` bytes from `src[src_off..]` into `data[off..]`, leaving every
/// other byte of `data` unchanged.
pub fn copy_bytes_at(data: &mut Vec<u8>, off: usize, src: &[u8], src_off: usize, n: usize)
    requires
        off + n <= old(data).len(),
        src_off + n <= src.len(),
    ensures
        final(data)@.len() == old(data)@.len(),
        final(data)@.subrange(off as int, off + n) == src@.subrange(src_off as int, src_off + n),
        forall|i: int|
            0 <= i < old(data)@.len() && !(off <= i < off + n)
                ==> final(data)@[i] == old(data)@[i],
{
    let mut i: usize = 0;
    while i < n
        invariant
            i <= n,
            off + n <= data.len(),
            src_off + n <= src.len(),
            data@.len() == old(data)@.len(),
            forall|j: int| 0 <= j < i ==> #[trigger] data@[off + j] == src@[src_off + j],
            forall|j: int|
                0 <= j < data@.len() && !(off <= j < off + i) ==> data@[j] == old(data)@[j],
        decreases n - i,
    {
        data.set(off + i, src[src_off + i]);
        i = i + 1;
    }
    proof {
        assert forall|k: int| 0 <= k < n implies #[trigger] data@.subrange(off as int, off + n)[k]
            == src@.subrange(src_off as int, src_off + n)[k] by {
            assert(data@[off + k] == src@[src_off + k]);
        }
        assert(data@.subrange(off as int, off + n)
            =~= src@.subrange(src_off as int, src_off + n));
    }
}

/// Reports whether the 32 bytes at `off` equal `key`.
pub fn bytes32_match_at(data: &Vec<u8>, off: usize, key: &[u8; 32]) -> (r: bool)
    requires
        off + 32 <= data.len(),
    ensures
        r == (data@.subrange(off as int, off + 32) == key@),
{
    let mut i: usize = 0;
    while i < 32
        invariant
            i <= 32,
            off + 32 <= data.len(),
            forall|j: int| 0 <= j < i ==> data@[off + j] == key@[j],
        decreases 32 - i,
    {
        if data[off + i] != key[i] {
            proof {
                assert(data@.subrange(off as int, off + 32)[i as int] != key@[i as int]);
            }
            return false;
        }
        i = i + 1;
    }
    proof {
        assert(data@.subrange(off as int, off + 32) =~= key@);
    }
    true
}

/// Reads the 32 bytes at `off` into a fresh vector.
pub fn read_bytes32_at(data: &Vec<u8>, off: usize) -> (r: Vec<u8>)
    requires
        off + 32 <= data.len(),
    ensures
        r@ == data@.subrange(off as int, off + 32),
{
    let mut out: Vec<u8> = Vec::new();
    let mut i: usize = 0;
    while i < 32
        invariant
            i <= 32,
            off + 32 <= data.len(),
            out@.len() == i,
            forall|j: int| 0 <= j < i ==> out@[j] == data@[off + j],
        decreases 32 - i,
    {
        out.push(data[off + i]);
        i = i + 1;
    }
    proof {
        assert(out@ =~= data@.subrange(off as int, off + 32));
    }
    out
}

} // verus!
