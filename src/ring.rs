//! The ring handle: the submission and completion views of one ring, its
//! layout and setup flags, and the policy for entering the kernel.
use vstd::prelude::*;
use crate::abi::{
    known_setup_flags, setup_flags_from_bits, Params, IORING_ENTER_GETEVENTS,
    IORING_ENTER_SQ_WAKEUP, IORING_SETUP_SQPOLL, IORING_SQ_NEED_WAKEUP,
};
use crate::cq::CompletionQueue;
use crate::entry::SQEntry;
use crate::index::valid_geometry;
use crate::layout::{spec_layout, RingLayout, SetupError};
use crate::sq::{FlushPlan, SubmissionQueue};

verus! {

/// The cells of a freshly mapped ring that setup reads back.
#[derive(Clone, Copy, Debug, PartialEq, Eq)]
pub struct RingCells {
    pub sq_ring_entries: u32,
    pub sq_ring_mask: u32,
    pub cq_ring_entries: u32,
    pub cq_ring_mask: u32,
    pub cq_head: u32,
}

/// What a submission asks of the caller once the entries are published.
#[derive(Clone, Copy, Debug, PartialEq, Eq, Structural)]
pub enum EnterAction {
    /// Return this count; no system call.
    Return(u32),
    /// Call `io_uring_enter` with these arguments.
    Enter { to_submit: u32, min_complete: u32, flags: u32 },
}

/// Whether the kernel must be entered for the submission ring to make
/// progress, and with which flags. Without a polling thread it must, with no
/// flag; with one, only when the thread has gone idle, to wake it.
pub open spec fn spec_needs_enter(setup_flags: u32, kflags: u32) -> Option<u32> {
    if setup_flags & IORING_SETUP_SQPOLL == 0 {
        Some(0u32)
    } else if kflags & IORING_SQ_NEED_WAKEUP != 0 {
        Some(IORING_ENTER_SQ_WAKEUP)
    } else {
        None
    }
}

/// The step after `submitted` entries were published, when the caller
/// wants to wait for `wait_nr` completions.
pub open spec fn spec_do_submit(setup_flags: u32, submitted: u32, wait_nr: u32, kflags: u32) -> EnterAction {
    let min_complete = if wait_nr > submitted { submitted } else { wait_nr };
    match spec_needs_enter(setup_flags, kflags) {
        None => if wait_nr == 0 {
            EnterAction::Return(submitted)
        } else {
            EnterAction::Enter { to_submit: submitted, min_complete, flags: IORING_ENTER_GETEVENTS }
        },
        Some(f) => if wait_nr == 0 {
            EnterAction::Enter { to_submit: submitted, min_complete, flags: f }
        } else {
            EnterAction::Enter {
                to_submit: submitted,
                min_complete,
                flags: f | IORING_ENTER_GETEVENTS,
            }
        },
    }
}

/// The step after a flush that published `submitted` entries: nothing to
/// do when it published none, else as `spec_do_submit`.
pub open spec fn spec_submit_action(setup_flags: u32, submitted: u32, wait_nr: u32, kflags: u32) -> EnterAction {
    if submitted == 0 {
        EnterAction::Return(0)
    } else {
        spec_do_submit(setup_flags, submitted, wait_nr, kflags)
    }
}

/// One ring: its fd, setup flags and layout, and the producer and consumer
/// state of its two rings.
pub struct IoUring {
    pub fd: i32,
    pub flags: u32,
    pub layout: RingLayout,
    pub sq: SubmissionQueue,
    pub cq: CompletionQueue,
}

impl IoUring {
    pub open spec fn wf(&self) -> bool {
        &&& known_setup_flags(self.flags)
        &&& self.sq.wf()
        &&& self.cq.wf()
        &&& self.sq.ring_entries == self.layout.sq_entries
        &&& self.cq.ring_entries == self.layout.cq_entries
    }

    /// Checks what `io_uring_setup` reported before anything is mapped:
    /// the setup flags, then the layout of the regions.
    pub fn check_params(p: &Params) -> (r: Result<RingLayout, SetupError>)
        ensures
            !known_setup_flags(p.flags) ==> r == Err::<RingLayout, SetupError>(SetupError::UnknownFlags),
            known_setup_flags(p.flags) ==> r == spec_layout(*p),
    {
        match setup_flags_from_bits(p.flags) {
            None => Err(SetupError::UnknownFlags),
            Some(_) => RingLayout::from_params(p),
        }
    }

    /// The handle of a ring whose regions were mapped by `layout`, given the
    /// cells read back from them. Fails with `BadGeometry` unless each ring
    /// reports the size set up and a mask one less than it.
    pub fn new(fd: i32, flags: u32, layout: RingLayout, cells: RingCells) -> (r: Result<IoUring, SetupError>)
        requires
            known_setup_flags(flags),
        ensures
            r is Ok <==> {
                &&& cells.sq_ring_entries == layout.sq_entries
                &&& cells.cq_ring_entries == layout.cq_entries
                &&& valid_geometry(cells.sq_ring_entries, cells.sq_ring_mask)
                &&& valid_geometry(cells.cq_ring_entries, cells.cq_ring_mask)
            },
            r is Err ==> r == Err::<IoUring, SetupError>(SetupError::BadGeometry),
            r matches Ok(ring) ==> {
                &&& ring.wf()
                &&& ring.fd == fd
                &&& ring.flags == flags
                &&& ring.layout == layout
                &&& ring.sq.sqe_head == 0
                &&& ring.sq.sqe_tail == 0
                &&& ring.sq.ring_mask == cells.sq_ring_mask
                &&& ring.cq.khead == cells.cq_head
                &&& ring.cq.ring_mask == cells.cq_ring_mask
            },
    {
        if cells.sq_ring_entries != layout.sq_entries || cells.cq_ring_entries != layout.cq_entries {
            return Err(SetupError::BadGeometry);
        }
        let sq = match SubmissionQueue::new(cells.sq_ring_entries, cells.sq_ring_mask) {
            Some(q) => q,
            None => return Err(SetupError::BadGeometry),
        };
        let cq = match CompletionQueue::new(cells.cq_ring_entries, cells.cq_ring_mask, cells.cq_head) {
            Some(q) => q,
            None => return Err(SetupError::BadGeometry),
        };
        Ok(IoUring { fd, flags, layout, sq, cq })
    }

    /// Whether a kernel thread polls the submission ring.
    pub fn sqpoll(&self) -> (r: bool)
        ensures
            r == (self.flags & IORING_SETUP_SQPOLL != 0),
    {
        self.flags & IORING_SETUP_SQPOLL != 0
    }

    /// Hands out a zeroed entry for the next free slot of the pool, or
    /// `None` when every slot holds an entry not yet published. The entry
    /// is committed at once: the next submission publishes it.
    pub fn get_sqe(&mut self) -> (r: Option<SQEntry>)
        requires
            old(self).wf(),
        ensures
            final(self).wf(),
            final(self).fd == old(self).fd,
            final(self).flags == old(self).flags,
            final(self).layout == old(self).layout,
            final(self).cq == old(self).cq,
            final(self).sq.sqe_head == old(self).sq.sqe_head,
            final(self).sq.ring_mask == old(self).sq.ring_mask,
            final(self).sq.ring_entries == old(self).sq.ring_entries,
            old(self).sq.pending() < old(self).sq.ring_entries ==> {
                &&& r matches Some(e) && e.is_zeroed() && e.index == (old(self).sq.sqe_tail & old(self).sq.ring_mask)
                &&& final(self).sq.pending() == old(self).sq.pending() + 1
                &&& final(self).sq.sqe_tail == crate::index::idx_add(old(self).sq.sqe_tail, 1)
            },
            old(self).sq.pending() == old(self).sq.ring_entries ==> {
                &&& r is None
                &&& final(self).sq == old(self).sq
            },
    {
        match self.sq.get_sqe() {
            Some(idx) => Some(SQEntry::zeroed(idx)),
            None => None,
        }
    }

    /// Publishes every entry handed out since the last flush, given the
    /// submission ring's `tail`. The caller performs the returned stores
    /// into `array`, then stores the new tail with release ordering.
    pub fn flush_sq(&mut self, ktail: u32) -> (plan: FlushPlan)
        requires
            old(self).wf(),
        ensures
            final(self).wf(),
            *final(self) == (IoUring { sq: old(self).sq.flushed(), ..*old(self) }),
            plan.writes@.len() == old(self).sq.pending(),
            forall|i: int|
                0 <= i < plan.writes@.len() ==> plan.writes@[i] == old(self).sq.flush_write(ktail, i),
            plan.new_tail == crate::index::idx_add(ktail, old(self).sq.pending() as int),
    {
        self.sq.flush(ktail)
    }

    /// Whether the kernel must be entered for the submission ring, and with
    /// which flags, given the ring's status flags (read with acquire
    /// ordering; only consulted when a kernel thread polls the ring).
    pub fn sq_ring_needs_enter(&self, kflags: u32) -> (r: Option<u32>)
        ensures
            r == spec_needs_enter(self.flags, kflags),
    {
        if self.flags & IORING_SETUP_SQPOLL == 0 {
            return Some(0);
        }
        if kflags & IORING_SQ_NEED_WAKEUP != 0 {
            return Some(IORING_ENTER_SQ_WAKEUP);
        }
        None
    }

    /// What to do after `submitted` entries were published, to wait for
    /// `wait_nr` completions: return at once, or enter the kernel with the
    /// given arguments. The wait is clamped to `submitted`.
    pub fn do_submit(&self, submitted: u32, wait_nr: u32, kflags: u32) -> (r: EnterAction)
        ensures
            r == spec_do_submit(self.flags, submitted, wait_nr, kflags),
    {
        let min_complete = if wait_nr > submitted {
            submitted
        } else {
            wait_nr
        };
        match self.sq_ring_needs_enter(kflags) {
            None => {
                if wait_nr == 0 {
                    EnterAction::Return(submitted)
                } else {
                    EnterAction::Enter { to_submit: submitted, min_complete, flags: IORING_ENTER_GETEVENTS }
                }
            },
            Some(f) => {
                if wait_nr == 0 {
                    EnterAction::Enter { to_submit: submitted, min_complete, flags: f }
                } else {
                    EnterAction::Enter {
                        to_submit: submitted,
                        min_complete,
                        flags: f | IORING_ENTER_GETEVENTS,
                    }
                }
            },
        }
    }

    /// What to do after a flush that published `submitted` entries: return
    /// 0 at once when it published none, else as `do_submit`.
    pub fn submit_action(&self, submitted: u32, wait_nr: u32, kflags: u32) -> (r: EnterAction)
        ensures
            r == spec_submit_action(self.flags, submitted, wait_nr, kflags),
    {
        if submitted == 0 {
            return EnterAction::Return(0);
        }
        self.do_submit(submitted, wait_nr, kflags)
    }

    /// The outcome of `io_uring_enter`: the number of entries the kernel
    /// consumed, or the errno it left on a negative return.
    pub fn enter_outcome(ret: i64, errno: i32) -> (r: Result<u32, i32>)
        ensures
            ret < 0 ==> r == Err::<u32, i32>(errno),
            ret >= 0 ==> r == Ok::<u32, i32>(ret as u32),
    {
        if ret < 0 {
            Err(errno)
        } else {
            Ok(ret as u32)
        }
    }

    /// The slot of the oldest unconsumed completion, given the completion
    /// ring's `tail` (loaded with acquire ordering), or `None` if there is
    /// none.
    pub fn peek_cqe(&self, ktail: u32) -> (r: Option<u32>)
        ensures
            ktail != self.cq.khead ==> r == Some(self.cq.khead & self.cq.ring_mask),
            ktail == self.cq.khead ==> r is None,
    {
        self.cq.peek_cqe(ktail)
    }

    /// Consumes the `n` oldest completions and returns the completion
    /// ring's new `head`, to be stored with release ordering.
    pub fn cqe_seen(&mut self, ktail: u32, n: u32) -> (head: u32)
        requires
            old(self).wf(),
            n <= old(self).cq.ready(ktail),
        ensures
            final(self).wf(),
            head == final(self).cq.khead,
            *final(self) == (IoUring {
                cq: CompletionQueue { khead: crate::index::idx_add(old(self).cq.khead, n as int), ..old(self).cq },
                ..*old(self)
            }),
            final(self).cq.ready(ktail) == old(self).cq.ready(ktail) - n,
    {
        self.cq.cqe_seen(ktail, n)
    }
}

} // verus!
