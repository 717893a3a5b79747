//! Arithmetic on ring indices. The kernel and this side count ring positions
//! with free-running 32-bit counters that wrap at 2^32; a slot is a counter
//! masked by the ring size.
use vstd::prelude::*;

verus! {

/// Number of distinct values of a 32-bit ring index.
pub const INDEX_SPACE: u64 = 0x1_0000_0000;

/// The largest ring size this library accepts. The kernel rounds ring sizes
/// to powers of two and caps them far below this.
pub const MAX_RING_ENTRIES: u32 = 0x8000_0000;

/// Ring geometry the kernel can report: a non-empty ring whose mask is one
/// less than its size.
pub open spec fn valid_geometry(ring_entries: u32, ring_mask: u32) -> bool {
    &&& 0 < ring_entries <= MAX_RING_ENTRIES
    &&& ring_mask == ring_entries - 1
}

/// Whether the geometry the kernel reported is one this library accepts.
pub fn check_geometry(ring_entries: u32, ring_mask: u32) -> (r: bool)
    ensures
        r == valid_geometry(ring_entries, ring_mask),
{
    ring_entries != 0 && ring_entries <= MAX_RING_ENTRIES && ring_mask == ring_entries - 1
}

/// The index reached from `a` after `n` steps, wrapping at 2^32.
pub open spec fn idx_add(a: u32, n: int) -> u32 {
    ((a as int + n) % (INDEX_SPACE as int)) as u32
}

/// The number of steps from `from` to `to`, counted modulo 2^32.
pub open spec fn idx_dist(to: u32, from: u32) -> nat {
    ((to as int - from as int) % (INDEX_SPACE as int)) as nat
}

/// One more wrapping step from `a + n` is `a + n + 1`.
pub proof fn lemma_idx_step(a: u32, n: int)
    requires
        n >= 0,
    ensures
        vstd::wrapping::u32_specs::wrapping_add(idx_add(a, n), 1) == idx_add(a, n + 1),
{
    let m = INDEX_SPACE as int;
    let x = (a as int + n) % m;
    vstd::arithmetic::div_mod::lemma_add_mod_noop(a as int + n, 1, m);
    assert(1int % m == 1);
    assert(0 <= x < m);
    if x + 1 == m {
        assert((x + 1) % m == 0);
    } else {
        assert((x + 1) % m == x + 1) by {
            vstd::arithmetic::div_mod::lemma_small_mod((x + 1) as nat, m as nat);
        }
    }
}

/// Zero steps from `a` stay at `a`.
pub proof fn lemma_idx_add_zero(a: u32)
    ensures
        idx_add(a, 0) == a,
{
    vstd::arithmetic::div_mod::lemma_small_mod(a as nat, INDEX_SPACE as nat);
}

/// Walking the distance from `from` to `to` reaches `to`.
pub proof fn lemma_idx_add_dist(to: u32, from: u32)
    ensures
        idx_add(from, idx_dist(to, from) as int) == to,
        idx_dist(to, from) < INDEX_SPACE,
{
    let m = INDEX_SPACE as int;
    let d = (to as int - from as int) % m;
    if to >= from {
        vstd::arithmetic::div_mod::lemma_small_mod((to - from) as nat, m as nat);
        vstd::arithmetic::div_mod::lemma_small_mod(to as nat, m as nat);
    } else {
        assert(d == to as int - from as int + m) by {
            vstd::arithmetic::div_mod::lemma_mod_add_multiples_vanish(to as int - from as int, m);
            vstd::arithmetic::div_mod::lemma_small_mod((to as int - from as int + m) as nat, m as nat);
        }
        assert((from as int + d) % m == to) by {
            vstd::arithmetic::div_mod::lemma_mod_add_multiples_vanish(to as int, m);
            vstd::arithmetic::div_mod::lemma_small_mod(to as nat, m as nat);
        }
    }
}

/// Fewer than 2^32 steps from `from` lie that many steps away from it.
pub proof fn lemma_idx_dist_of_add(from: u32, n: int)
    requires
        0 <= n < INDEX_SPACE,
    ensures
        idx_dist(idx_add(from, n), from) == n,
{
    let m = INDEX_SPACE as int;
    if from as int + n < m {
        vstd::arithmetic::div_mod::lemma_small_mod((from as int + n) as nat, m as nat);
        vstd::arithmetic::div_mod::lemma_small_mod(n as nat, m as nat);
    } else {
        assert((from as int + n) % m == from as int + n - m) by {
            vstd::arithmetic::div_mod::lemma_mod_sub_multiples_vanish(from as int + n, m);
            vstd::arithmetic::div_mod::lemma_small_mod((from as int + n - m) as nat, m as nat);
        }
        assert((n - m) % m == n) by {
            vstd::arithmetic::div_mod::lemma_mod_add_multiples_vanish(n - m, m);
            vstd::arithmetic::div_mod::lemma_small_mod(n as nat, m as nat);
        }
    }
}

/// `u32::wrapping_sub` computes the distance between two indices.
pub proof fn lemma_wrapping_sub_is_dist(to: u32, from: u32)
    ensures
        vstd::wrapping::u32_specs::wrapping_sub(to, from) == idx_dist(to, from),
{
    let m = INDEX_SPACE as int;
    if to >= from {
        vstd::arithmetic::div_mod::lemma_small_mod((to - from) as nat, m as nat);
    } else {
        vstd::arithmetic::div_mod::lemma_mod_add_multiples_vanish(to as int - from as int, m);
        vstd::arithmetic::div_mod::lemma_small_mod((to as int - from as int + m) as nat, m as nat);
    }
}

} // verus!
