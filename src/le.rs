//! Little-endian integer fields inside byte records. The kernel's records
//! are in the machine's byte order: little-endian on x86_64, whose system
//! call numbers this library carries.
use vstd::prelude::*;

verus! {

/// The 16-bit value stored little-endian at `at`.
pub open spec fn le_u16(b: Seq<u8>, at: int) -> int {
    b[at] + b[at + 1] * 0x100
}

/// The 32-bit value stored little-endian at `at`.
pub open spec fn le_u32(b: Seq<u8>, at: int) -> int {
    le_u16(b, at) + le_u16(b, at + 2) * 0x1_0000
}

/// The 64-bit value stored little-endian at `at`.
pub open spec fn le_u64(b: Seq<u8>, at: int) -> int {
    le_u32(b, at) + le_u32(b, at + 4) * 0x1_0000_0000
}

/// Every byte in `at..at + n` is zero.
pub open spec fn zero_bytes(b: Seq<u8>, at: int, n: int) -> bool {
    forall|i: int| at <= i < at + n ==> b[i] == 0
}

proof fn lemma_split_u16(x: u16)
    ensures
        x == (x & 0xff) + ((x >> 8) & 0xff) * 0x100,
        (x & 0xff) < 0x100,
        ((x >> 8) & 0xff) < 0x100,
{
    assert(x == (x & 0xff) + ((x >> 8) & 0xff) * 0x100) by (bit_vector);
    assert((x & 0xff) < 0x100) by (bit_vector);
    assert(((x >> 8) & 0xff) < 0x100) by (bit_vector);
}

proof fn lemma_split_u32(x: u32)
    ensures
        x == (x & 0xffff) + ((x >> 16) & 0xffff) * 0x1_0000,
        (x & 0xffff) < 0x1_0000,
        ((x >> 16) & 0xffff) < 0x1_0000,
{
    assert(x == (x & 0xffff) + ((x >> 16) & 0xffff) * 0x1_0000) by (bit_vector);
    assert((x & 0xffff) < 0x1_0000) by (bit_vector);
    assert(((x >> 16) & 0xffff) < 0x1_0000) by (bit_vector);
}

proof fn lemma_split_u64(x: u64)
    ensures
        x == (x & 0xffff_ffff) + ((x >> 32) & 0xffff_ffff) * 0x1_0000_0000,
        (x & 0xffff_ffff) < 0x1_0000_0000,
        ((x >> 32) & 0xffff_ffff) < 0x1_0000_0000,
{
    assert(x == (x & 0xffff_ffff) + ((x >> 32) & 0xffff_ffff) * 0x1_0000_0000) by (bit_vector);
    assert((x & 0xffff_ffff) < 0x1_0000_0000) by (bit_vector);
    assert(((x >> 32) & 0xffff_ffff) < 0x1_0000_0000) by (bit_vector);
}

/// `b` and `c` have the same length and agree outside `at..at + n`.
pub open spec fn same_outside(b: Seq<u8>, c: Seq<u8>, at: int, n: int) -> bool {
    &&& b.len() == c.len()
    &&& forall|i: int| 0 <= i < b.len() && !(at <= i < at + n) ==> #[trigger] c[i] == b[i]
}

/// Stores `x` as two little-endian bytes at `at`.
pub fn put_u16(out: &mut Vec<u8>, at: usize, x: u16)
    requires
        at + 2 <= old(out).len(),
    ensures
        same_outside(old(out)@, final(out)@, at as int, 2),
        le_u16(final(out)@, at as int) == x,
{
    proof {
        lemma_split_u16(x);
    }
    out.set(at, (x & 0xff) as u8);
    out.set(at + 1, ((x >> 8) & 0xff) as u8);
}

/// Stores `x` as four little-endian bytes at `at`.
pub fn put_u32(out: &mut Vec<u8>, at: usize, x: u32)
    requires
        at + 4 <= old(out).len(),
    ensures
        same_outside(old(out)@, final(out)@, at as int, 4),
        le_u32(final(out)@, at as int) == x,
{
    proof {
        lemma_split_u32(x);
    }
    put_u16(out, at, (x & 0xffff) as u16);
    let ghost mid = out@;
    put_u16(out, at + 2, ((x >> 16) & 0xffff) as u16);
    assert(out@[at as int] == mid[at as int]);
    assert(out@[at + 1] == mid[at + 1]);
}

/// Stores `x` as eight little-endian bytes at `at`.
pub fn put_u64(out: &mut Vec<u8>, at: usize, x: u64)
    requires
        at + 8 <= old(out).len(),
    ensures
        same_outside(old(out)@, final(out)@, at as int, 8),
        le_u64(final(out)@, at as int) == x,
{
    proof {
        lemma_split_u64(x);
    }
    put_u32(out, at, (x & 0xffff_ffff) as u32);
    let ghost mid = out@;
    put_u32(out, at + 4, ((x >> 32) & 0xffff_ffff) as u32);
    assert(out@[at as int] == mid[at as int]);
    assert(out@[at + 1] == mid[at + 1]);
    assert(out@[at + 2] == mid[at + 2]);
    assert(out@[at + 3] == mid[at + 3]);
}

/// A record of `n` zero bytes.
pub fn zeroed(n: usize) -> (b: Vec<u8>)
    ensures
        b@.len() == n,
        zero_bytes(b@, 0, n as int),
{
    let mut b: Vec<u8> = Vec::new();
    let mut k: usize = 0;
    while k < n
        invariant
            k <= n,
            b@.len() == k,
            zero_bytes(b@, 0, k as int),
        decreases n - k,
    {
        b.push(0);
        k = k + 1;
    }
    b
}

/// Reads the 16-bit little-endian value at `at`.
pub fn read_u16(b: &Vec<u8>, at: usize) -> (r: u16)
    requires
        at + 2 <= b.len(),
    ensures
        r == le_u16(b@, at as int),
{
    b[at] as u16 + (b[at + 1] as u16) * 0x100
}

/// Reads the 32-bit little-endian value at `at`.
pub fn read_u32(b: &Vec<u8>, at: usize) -> (r: u32)
    requires
        at + 4 <= b.len(),
    ensures
        r == le_u32(b@, at as int),
{
    read_u16(b, at) as u32 + (read_u16(b, at + 2) as u32) * 0x1_0000
}

/// Reads the 64-bit little-endian value at `at`.
pub fn read_u64(b: &Vec<u8>, at: usize) -> (r: u64)
    requires
        at + 8 <= b.len(),
    ensures
        r == le_u64(b@, at as int),
{
    read_u32(b, at) as u64 + (read_u32(b, at + 4) as u64) * 0x1_0000_0000
}

} // verus!
