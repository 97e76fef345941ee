//! Big-endian integer fields of the wire format.
//!
//! The spec functions say what value a fixed-width big-endian field holds at
//! a given position of a byte sequence; the executable readers return exactly
//! that value.

use vstd::prelude::*;
use vstd::slice::slice_index_get;

verus! {

broadcast use vstd::slice::axiom_spec_len;

/// The 16-bit big-endian value held by the two bytes at position `p`.
pub open spec fn be_u16_at(s: Seq<u8>, p: int) -> u16
    recommends
        0 <= p,
        p + 2 <= s.len(),
{
    (s[p] * 0x100 + s[p + 1]) as u16
}

/// The 32-bit big-endian value held by the four bytes at position `p`.
pub open spec fn be_u32_at(s: Seq<u8>, p: int) -> u32
    recommends
        0 <= p,
        p + 4 <= s.len(),
{
    (s[p] * 0x100_0000 + s[p + 1] * 0x1_0000 + s[p + 2] * 0x100 + s[p + 3]) as u32
}

/// The 64-bit big-endian value held by the eight bytes at position `p`.
pub open spec fn be_u64_at(s: Seq<u8>, p: int) -> u64
    recommends
        0 <= p,
        p + 8 <= s.len(),
{
    (be_u32_at(s, p) * 0x1_0000_0000 + be_u32_at(s, p + 4)) as u64
}

/// The sequence of `n` consecutive 32-bit big-endian values starting at
/// position `p`.
pub open spec fn be_u32_seq_at(s: Seq<u8>, p: int, n: int) -> Seq<u32> {
    Seq::new(n as nat, |k: int| be_u32_at(s, p + 4 * k))
}

/// Reads the 16-bit big-endian field at position `pos`.
pub fn read_be_u16(i: &[u8], pos: usize) -> (r: u16)
    requires
        pos + 2 <= i@.len(),
    ensures
        r == be_u16_at(i@, pos as int),
{
    proof {
        vstd::slice::axiom_spec_len(i);
    }
    let b0 = *slice_index_get(i, pos);
    let b1 = *slice_index_get(i, pos + 1);
    b0 as u16 * 0x100 + b1 as u16
}

/// Reads the 32-bit big-endian field at position `pos`.
pub fn read_be_u32(i: &[u8], pos: usize) -> (r: u32)
    requires
        pos + 4 <= i@.len(),
    ensures
        r == be_u32_at(i@, pos as int),
{
    proof {
        vstd::slice::axiom_spec_len(i);
    }
    let b0 = *slice_index_get(i, pos);
    let b1 = *slice_index_get(i, pos + 1);
    let b2 = *slice_index_get(i, pos + 2);
    let b3 = *slice_index_get(i, pos + 3);
    b0 as u32 * 0x100_0000 + b1 as u32 * 0x1_0000 + b2 as u32 * 0x100 + b3 as u32
}

/// Reads the 64-bit big-endian field at position `pos`.
pub fn read_be_u64(i: &[u8], pos: usize) -> (r: u64)
    requires
        pos + 8 <= i@.len(),
    ensures
        r == be_u64_at(i@, pos as int),
{
    proof {
        vstd::slice::axiom_spec_len(i);
    }
    let hi = read_be_u32(i, pos);
    let lo = read_be_u32(i, pos + 4);
    hi as u64 * 0x1_0000_0000 + lo as u64
}

/// Reads `n` consecutive 32-bit big-endian fields starting at position
/// `pos`.
pub fn read_be_u32_seq(i: &[u8], pos: usize, n: usize) -> (r: Vec<u32>)
    requires
        pos + 4 * n <= i@.len(),
    ensures
        r@ == be_u32_seq_at(i@, pos as int, n as int),
{
    proof {
        vstd::slice::axiom_spec_len(i);
    }
    let mut out: Vec<u32> = Vec::new();
    let mut k: usize = 0;
    while k < n
        invariant
            k <= n,
            pos + 4 * n <= i@.len(),
            i@.len() <= usize::MAX,
            out@ =~= be_u32_seq_at(i@, pos as int, k as int),
        decreases n - k,
    {
        let v = read_be_u32(i, pos + 4 * k);
        out.push(v);
        k = k + 1;
    }
    out
}

} // verus!
