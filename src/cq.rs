//! The consumer side of the completion ring.
//!
//! The kernel produces completions into slots `head..tail` and moves `tail`;
//! this side reads them and moves `head`, which it alone writes, so it keeps
//! its own copy.
use vstd::prelude::*;
use crate::index::{
    check_geometry, idx_add, idx_dist, lemma_idx_add_dist, lemma_idx_add_zero, lemma_idx_dist_of_add,
    lemma_wrapping_sub_is_dist, valid_geometry, INDEX_SPACE,
};

verus! {

/// Consumer state of the completion ring.
pub struct CompletionQueue {
    /// The ring's `head`, as last stored by this side.
    pub khead: u32,
    /// `ring_entries - 1`, as the kernel reports it.
    pub ring_mask: u32,
    /// Number of slots in the ring, as the kernel reports it.
    pub ring_entries: u32,
}

impl CompletionQueue {
    pub open spec fn wf(&self) -> bool {
        valid_geometry(self.ring_entries, self.ring_mask)
    }

    /// Completions posted and not yet consumed, given the ring's `tail`.
    pub open spec fn ready(&self, ktail: u32) -> nat {
        idx_dist(ktail, self.khead)
    }

    /// Consumer state for a ring of the given geometry whose `head` reads
    /// `khead`, or `None` where the geometry is not one the kernel reports.
    pub fn new(ring_entries: u32, ring_mask: u32, khead: u32) -> (r: Option<CompletionQueue>)
        ensures
            r is Some <==> valid_geometry(ring_entries, ring_mask),
            r matches Some(q) ==> q.wf() && q == (CompletionQueue { khead, ring_mask, ring_entries }),
    {
        if !check_geometry(ring_entries, ring_mask) {
            return None;
        }
        Some(CompletionQueue { khead, ring_mask, ring_entries })
    }

    /// Number of completions ready to be read, given the ring's `tail`
    /// (loaded with acquire ordering).
    pub fn ready_count(&self, ktail: u32) -> (r: u32)
        ensures
            r == self.ready(ktail),
    {
        proof {
            lemma_wrapping_sub_is_dist(ktail, self.khead);
        }
        ktail.wrapping_sub(self.khead)
    }

    /// The slot of the oldest unconsumed completion, or `None` when the ring
    /// is empty, given the ring's `tail` (loaded with acquire ordering).
    pub fn peek_cqe(&self, ktail: u32) -> (r: Option<u32>)
        ensures
            ktail != self.khead ==> r == Some(self.khead & self.ring_mask),
            ktail == self.khead ==> r is None,
    {
        if ktail == self.khead {
            None
        } else {
            Some(self.khead & self.ring_mask)
        }
    }

    /// Marks the `n` oldest completions as consumed and returns the new
    /// `head`, to be stored with release ordering so the kernel may reuse
    /// those slots.
    pub fn cqe_seen(&mut self, ktail: u32, n: u32) -> (head: u32)
        requires
            old(self).wf(),
            n <= old(self).ready(ktail),
        ensures
            final(self).wf(),
            head == final(self).khead,
            *final(self) == (CompletionQueue { khead: idx_add(old(self).khead, n as int), ..*old(self) }),
            final(self).ready(ktail) == old(self).ready(ktail) - n,
    {
        proof {
            lemma_idx_add_zero(self.khead);
            lemma_idx_add_zero(n);
        }
        let head = self.khead.wrapping_add(n);
        proof {
            lemma_idx_add_dist(ktail, self.khead);
            lemma_wrapping_add_is_add(self.khead, n);
            lemma_idx_dist_of_add(self.khead, n as int);
            lemma_ready_after(self.khead, n as int, ktail);
        }
        self.khead = head;
        head
    }
}

/// Completions the kernel dropped between two readings of the ring's
/// `overflow` counter, which only grows (modulo 2^32).
pub fn overflow_since(last: u32, now: u32) -> (r: u32)
    ensures
        r == idx_dist(now, last),
{
    proof {
        lemma_wrapping_sub_is_dist(now, last);
    }
    now.wrapping_sub(last)
}

proof fn lemma_wrapping_add_is_add(a: u32, n: u32)
    ensures
        vstd::wrapping::u32_specs::wrapping_add(a, n) == idx_add(a, n as int),
{
    let m = INDEX_SPACE as int;
    if a as int + n as int > u32::MAX {
        vstd::arithmetic::div_mod::lemma_mod_sub_multiples_vanish(a as int + n as int, m);
        vstd::arithmetic::div_mod::lemma_small_mod((a as int + n as int - m) as nat, m as nat);
    } else {
        vstd::arithmetic::div_mod::lemma_small_mod((a as int + n as int) as nat, m as nat);
    }
}

/// Moving `n` steps towards `to` shortens the distance by `n`.
proof fn lemma_ready_after(from: u32, n: int, to: u32)
    requires
        0 <= n <= idx_dist(to, from),
    ensures
        idx_dist(to, idx_add(from, n)) == idx_dist(to, from) - n,
{
    let m = INDEX_SPACE as int;
    let d = idx_dist(to, from) as int;
    lemma_idx_add_dist(to, from);
    let mid = idx_add(from, n);
    lemma_idx_dist_of_add(from, n);
    // to == from + d and mid == from + n, both modulo m
    assert((to as int - mid as int) % m == d - n) by {
        let a = from as int;
        assert(to as int == (a + d) % m);
        assert(mid as int == (a + n) % m);
        vstd::arithmetic::div_mod::lemma_fundamental_div_mod(a + d, m);
        vstd::arithmetic::div_mod::lemma_fundamental_div_mod(a + n, m);
        let q1 = (a + d) / m;
        let q2 = (a + n) / m;
        assert(to as int - mid as int == (d - n) + (q2 - q1) * m) by (nonlinear_arith)
            requires
                to as int == a + d - m * q1,
                mid as int == a + n - m * q2,
        ;
        vstd::arithmetic::div_mod::lemma_mod_multiples_vanish(q2 - q1, d - n, m);
        vstd::arithmetic::div_mod::lemma_small_mod((d - n) as nat, m as nat);
    }
}

} // verus!
