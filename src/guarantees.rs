//! Statements that relate several operations of the library.
use vstd::prelude::*;
use crate::abi::{Cqe, Params, IORING_ENTER_GETEVENTS, IORING_ENTER_SQ_WAKEUP, IORING_SETUP_SQPOLL, IORING_SQ_NEED_WAKEUP};
use crate::entry::SQEntry;
use crate::layout::{spec_map_order, Region};
use crate::ring::{spec_submit_action, EnterAction, IoUring};
use crate::sq::SubmissionQueue;

verus! {

/// Handing out entries and flushing keep the number of pending entries
/// between zero and the ring size, whatever order they come in: each keeps
/// the queue well formed, and a well-formed queue has at most `ring_entries`
/// pending.
pub proof fn lemma_pending_within_ring(q: SubmissionQueue)
    requires
        q.wf(),
    ensures
        0 <= q.pending() <= q.ring_entries,
        q.flushed().wf(),
        q.flushed().pending() == 0,
{
    crate::index::lemma_wrapping_sub_is_dist(q.sqe_tail, q.sqe_tail);
}

/// The token a completion carries is the one its submission carried: when
/// the kernel copies the eight token bytes of the submission record into the
/// first eight bytes of the completion record, decoding the completion gives
/// back the entry's `user_data`.
pub proof fn lemma_user_data_echoed(e: SQEntry, sqe: Seq<u8>, c: Cqe, cqe: Seq<u8>)
    requires
        e.stored_in(sqe),
        c.stored_in(cqe),
        forall|i: int| 0 <= i < 8 ==> cqe[i] == sqe[32 + i],
    ensures
        c.user_data == e.user_data,
{
    assert(cqe[0] == sqe[32]);
    assert(cqe[1] == sqe[33]);
    assert(cqe[2] == sqe[34]);
    assert(cqe[3] == sqe[35]);
    assert(cqe[4] == sqe[36]);
    assert(cqe[5] == sqe[37]);
    assert(cqe[6] == sqe[38]);
    assert(cqe[7] == sqe[39]);
}

/// A parameter record reads back as the record that was written: two
/// records stored in the same bytes are equal, so decoding what `encode`
/// produced gives back the same record.
pub proof fn lemma_params_read_back(p: Params, q: Params, b: Seq<u8>)
    requires
        p.stored_in(b),
        q.stored_in(b),
    ensures
        p == q,
{
}

/// Submitting `k` entries and waiting for `k` enters the kernel with a
/// request for events, asking it to wait for all `k` completions.
pub proof fn lemma_wait_for_all(setup_flags: u32, k: u32, kflags: u32)
    requires
        k > 0,
    ensures
        spec_submit_action(setup_flags, k, k, kflags) matches EnterAction::Enter {
            to_submit,
            min_complete,
            flags,
        } && to_submit == k && min_complete == k && flags & IORING_ENTER_GETEVENTS != 0,
{
    assert(IORING_ENTER_GETEVENTS & IORING_ENTER_GETEVENTS != 0) by (bit_vector);
    assert((0u32 | IORING_ENTER_GETEVENTS) & IORING_ENTER_GETEVENTS != 0) by (bit_vector);
    assert((IORING_ENTER_SQ_WAKEUP | IORING_ENTER_GETEVENTS) & IORING_ENTER_GETEVENTS != 0) by (bit_vector);
}

/// A second submission with nothing handed out since the first publishes
/// nothing, leaves the ring as it was, and returns 0 without entering the
/// kernel, whatever it waits for: two submissions enter the kernel at most
/// once.
pub proof fn lemma_second_submit_is_free(r: IoUring, wait_nr: u32, kflags: u32)
    requires
        r.wf(),
    ensures
        r.sq.flushed().pending() == 0,
        r.sq.flushed().flushed() == r.sq.flushed(),
        spec_submit_action(r.flags, r.sq.flushed().pending() as u32, wait_nr, kflags) == EnterAction::Return(0),
{
    crate::index::lemma_wrapping_sub_is_dist(r.sq.sqe_tail, r.sq.sqe_tail);
}

/// With a polling thread, a submission that does not wait enters the kernel
/// exactly when the thread has gone idle, and then only to wake it; else it
/// returns the count it published without a system call.
pub proof fn lemma_wakeup_only_when_needed(setup_flags: u32, submitted: u32, kflags: u32)
    requires
        setup_flags & IORING_SETUP_SQPOLL != 0,
        submitted > 0,
    ensures
        kflags & IORING_SQ_NEED_WAKEUP != 0 ==> spec_submit_action(setup_flags, submitted, 0, kflags)
            == (EnterAction::Enter { to_submit: submitted, min_complete: 0, flags: IORING_ENTER_SQ_WAKEUP }),
        kflags & IORING_SQ_NEED_WAKEUP == 0 ==> spec_submit_action(setup_flags, submitted, 0, kflags)
            == EnterAction::Return(submitted),
{
}

/// Teardown releases every region that was mapped, each once.
pub proof fn lemma_teardown_releases_each_region_once(r: Region)
    ensures
        spec_map_order().reverse().contains(r),
        spec_map_order().reverse().filter(|x: Region| x == r).len() == 1,
{
    let o = spec_map_order().reverse();
    assert(o =~= seq![Region::CqRing, Region::Sqes, Region::SqRing]);
    reveal_with_fuel(Seq::filter, 4);
    assert(o.drop_last().drop_last().drop_last() =~= Seq::<Region>::empty());
    assert(o.drop_last().drop_last() =~= seq![Region::CqRing]);
    assert(o.drop_last() =~= seq![Region::CqRing, Region::Sqes]);
    match r {
        Region::SqRing => assert(o[2] == r),
        Region::Sqes => assert(o[1] == r),
        Region::CqRing => assert(o[0] == r),
    }
}

} // verus!
