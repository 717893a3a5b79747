//! The producer side of the submission ring.
//!
//! The kernel consumes ring slots `head..tail`; each slot holds, in the
//! ring's `array`, the index of a submission entry. The producer keeps two
//! private counters over the entry pool: entries in `sqe_head..sqe_tail` have
//! been handed out and filled, but not yet published through `array` and
//! `tail`.
use vstd::prelude::*;
use crate::index::{
    check_geometry, idx_add, idx_dist, lemma_idx_add_dist, lemma_idx_add_zero, lemma_idx_dist_of_add,
    lemma_idx_step, lemma_wrapping_sub_is_dist, valid_geometry,
};

verus! {

/// Private producer state of the submission ring.
pub struct SubmissionQueue {
    /// First entry handed out and not yet published.
    pub sqe_head: u32,
    /// One past the last entry handed out.
    pub sqe_tail: u32,
    /// `ring_entries - 1`, as the kernel reports it.
    pub ring_mask: u32,
    /// Number of slots in the ring, as the kernel reports it.
    pub ring_entries: u32,
}

/// One store into the ring's `array`: slot `ring_slot` receives the entry
/// index `sqe_index`.
#[derive(Clone, Copy, Debug, PartialEq, Eq)]
pub struct ArrayWrite {
    pub ring_slot: u32,
    pub sqe_index: u32,
}

/// What publishing the pending entries takes: the stores into `array`, in
/// order, and the tail to store afterwards with release ordering.
pub struct FlushPlan {
    pub writes: Vec<ArrayWrite>,
    pub new_tail: u32,
}

impl FlushPlan {
    /// Number of entries the plan publishes.
    pub fn submitted(&self) -> (r: u32)
        requires
            self.writes@.len() <= u32::MAX,
        ensures
            r == self.writes@.len(),
    {
        self.writes.len() as u32
    }
}

impl SubmissionQueue {
    /// Entries handed out and not yet published.
    pub open spec fn pending(&self) -> nat {
        idx_dist(self.sqe_tail, self.sqe_head)
    }

    pub open spec fn wf(&self) -> bool {
        &&& valid_geometry(self.ring_entries, self.ring_mask)
        &&& self.pending() <= self.ring_entries
    }

    /// An empty producer state for a ring of the given geometry, or `None`
    /// where the geometry is not one the kernel reports.
    pub fn new(ring_entries: u32, ring_mask: u32) -> (r: Option<SubmissionQueue>)
        ensures
            r is Some <==> valid_geometry(ring_entries, ring_mask),
            r matches Some(q) ==> {
                &&& q.wf()
                &&& q.sqe_head == 0
                &&& q.sqe_tail == 0
                &&& q.ring_entries == ring_entries
                &&& q.ring_mask == ring_mask
            },
    {
        if !check_geometry(ring_entries, ring_mask) {
            return None;
        }
        let q = SubmissionQueue { sqe_head: 0, sqe_tail: 0, ring_mask, ring_entries };
        proof {
            lemma_wrapping_sub_is_dist(0, 0);
        }
        Some(q)
    }

    /// Number of entries handed out and not yet published.
    pub fn pending_count(&self) -> (r: u32)
        ensures
            r == self.pending(),
    {
        proof {
            lemma_wrapping_sub_is_dist(self.sqe_tail, self.sqe_head);
        }
        self.sqe_tail.wrapping_sub(self.sqe_head)
    }

    /// Hands out the next free entry of the pool and returns its index, or
    /// `None` when every entry is pending. The entry is committed at once:
    /// the next flush publishes it whether or not it was filled.
    pub fn get_sqe(&mut self) -> (r: Option<u32>)
        requires
            old(self).wf(),
        ensures
            final(self).wf(),
            final(self).sqe_head == old(self).sqe_head,
            final(self).ring_mask == old(self).ring_mask,
            final(self).ring_entries == old(self).ring_entries,
            old(self).pending() < old(self).ring_entries ==> {
                &&& r == Some(old(self).sqe_tail & old(self).ring_mask)
                &&& final(self).sqe_tail == idx_add(old(self).sqe_tail, 1)
                &&& final(self).pending() == old(self).pending() + 1
            },
            old(self).pending() == old(self).ring_entries ==> {
                &&& r is None
                &&& final(self).sqe_tail == old(self).sqe_tail
            },
    {
        let next = self.sqe_tail.wrapping_add(1);
        proof {
            lemma_idx_add_zero(self.sqe_tail);
            lemma_idx_step(self.sqe_tail, 0);
            lemma_wrapping_sub_is_dist(next, self.sqe_head);
            lemma_idx_add_dist(self.sqe_tail, self.sqe_head);
            lemma_idx_step(self.sqe_head, self.pending() as int);
            lemma_idx_dist_of_add(self.sqe_head, self.pending() + 1int);
        }
        if next.wrapping_sub(self.sqe_head) > self.ring_entries {
            return None;
        }
        let idx = self.sqe_tail & self.ring_mask;
        self.sqe_tail = next;
        Some(idx)
    }

    /// The state after every pending entry has been published.
    pub open spec fn flushed(&self) -> SubmissionQueue {
        SubmissionQueue { sqe_head: self.sqe_tail, ..*self }
    }

    /// The stores into `array` for ring slot `ktail + i`, from the `i`-th
    /// pending entry on, as flushing lays them out.
    pub open spec fn flush_write(&self, ktail: u32, i: int) -> ArrayWrite {
        ArrayWrite {
            ring_slot: idx_add(ktail, i) & self.ring_mask,
            sqe_index: idx_add(self.sqe_head, i) & self.ring_mask,
        }
    }

    /// Publishes every pending entry: given the ring's current `tail`, lays
    /// the pending entries, oldest first, into consecutive ring slots and
    /// returns those stores with the tail that follows them. Afterwards
    /// nothing is pending.
    pub fn flush(&mut self, ktail: u32) -> (plan: FlushPlan)
        requires
            old(self).wf(),
        ensures
            final(self).wf(),
            *final(self) == old(self).flushed(),
            final(self).pending() == 0,
            plan.writes@.len() == old(self).pending(),
            forall|i: int|
                0 <= i < plan.writes@.len() ==> plan.writes@[i] == old(self).flush_write(ktail, i),
            plan.new_tail == idx_add(ktail, old(self).pending() as int),
    {
        let to_submit = self.pending_count();
        let ghost start = *self;
        let mut writes: Vec<ArrayWrite> = Vec::new();
        let mut tail = ktail;
        let mut head = self.sqe_head;
        let mut done: u32 = 0;
        let mask = self.ring_mask;
        proof {
            lemma_idx_add_zero(ktail);
            lemma_idx_add_zero(start.sqe_head);
        }
        while done < to_submit
            invariant
                start.wf(),
                mask == start.ring_mask,
                to_submit == start.pending(),
                done <= to_submit,
                writes@.len() == done,
                tail == idx_add(ktail, done as int),
                head == idx_add(start.sqe_head, done as int),
                forall|i: int| 0 <= i < done ==> writes@[i] == start.flush_write(ktail, i),
            decreases to_submit - done,
        {
            writes.push(ArrayWrite { ring_slot: tail & mask, sqe_index: head & mask });
            proof {
                lemma_idx_step(ktail, done as int);
                lemma_idx_step(start.sqe_head, done as int);
            }
            tail = tail.wrapping_add(1);
            head = head.wrapping_add(1);
            done = done + 1;
        }
        proof {
            lemma_idx_add_dist(start.sqe_tail, start.sqe_head);
            lemma_wrapping_sub_is_dist(start.sqe_tail, start.sqe_tail);
        }
        self.sqe_head = head;
        FlushPlan { writes, new_tail: tail }
    }
}

} // verus!
