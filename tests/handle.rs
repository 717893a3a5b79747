use iouring::abi::{
    CqRingOffsets, Params, SqRingOffsets, IORING_ENTER_GETEVENTS, IORING_ENTER_SQ_WAKEUP,
    IORING_OFF_CQ_RING, IORING_OFF_SQES, IORING_OFF_SQ_RING, IORING_OP_NOP, IORING_SETUP_SQPOLL,
    IORING_SQ_NEED_WAKEUP,
};
use iouring::layout::{map_order, mmap_offset, teardown_order, unwind_after, Region, RingLayout, SetupError};
use iouring::ring::{EnterAction, IoUring, RingCells};

fn params(sq_entries: u32, cq_entries: u32, flags: u32) -> Params {
    Params {
        sq_entries,
        cq_entries,
        flags,
        sq_thread_cpu: 0,
        sq_thread_idle: 0,
        sq_off: SqRingOffsets { head: 0, tail: 64, ring_mask: 256, ring_entries: 264, flags: 276, dropped: 272, array: 384 },
        cq_off: CqRingOffsets { head: 128, tail: 192, ring_mask: 260, ring_entries: 268, overflow: 284, cqes: 320 },
    }
}

fn cells(sq: u32, cq: u32) -> RingCells {
    RingCells { sq_ring_entries: sq, sq_ring_mask: sq - 1, cq_ring_entries: cq, cq_ring_mask: cq - 1, cq_head: 0 }
}

fn ring(sq: u32, cq: u32, flags: u32) -> IoUring {
    let p = params(sq, cq, flags);
    let layout = IoUring::check_params(&p).unwrap();
    IoUring::new(3, flags, layout, cells(sq, cq)).unwrap()
}

#[test]
fn layout_sizes() {
    let l = RingLayout::from_params(&params(4, 8, 0)).unwrap();
    assert_eq!(l.sq_ring_size, 384 + 4 * 4);
    assert_eq!(l.sqes_size, 4 * 64);
    assert_eq!(l.cq_ring_size, 320 + 8 * 16);
    assert_eq!(l.region_len(Region::SqRing), 400);
    assert_eq!(l.region_len(Region::Sqes), 256);
    assert_eq!(l.region_len(Region::CqRing), 448);
}

#[test]
fn layout_rejects_cell_outside_region() {
    let mut p = params(4, 8, 0);
    p.sq_off.flags = 398;
    assert_eq!(RingLayout::from_params(&p), Err(SetupError::BadOffset));
    let mut p = params(4, 8, 0);
    p.cq_off.overflow = 446;
    assert_eq!(RingLayout::from_params(&p), Err(SetupError::BadOffset));
    let mut p = params(4, 8, 0);
    p.cq_off.cqes = 324;
    assert_eq!(RingLayout::from_params(&p), Err(SetupError::BadOffset));
}

#[test]
fn layout_large_rings_fit() {
    let mut p = params(u32::MAX, u32::MAX, 0);
    p.sq_off.array = u32::MAX - 3;
    let r = RingLayout::from_params(&p);
    if usize::BITS == 64 {
        let l = r.unwrap();
        assert_eq!(l.sqes_size, (u32::MAX as usize) * 64);
    } else {
        assert_eq!(r, Err(SetupError::SizeOverflow));
    }
}

#[test]
fn check_params_rejects_unknown_flags() {
    assert_eq!(IoUring::check_params(&params(4, 8, 0x100)), Err(SetupError::UnknownFlags));
}

#[test]
fn new_checks_ring_cells() {
    let p = params(4, 8, 0);
    let layout = IoUring::check_params(&p).unwrap();
    assert!(IoUring::new(3, 0, layout, cells(4, 8)).is_ok());
    assert_eq!(IoUring::new(3, 0, layout, cells(8, 8)).err(), Some(SetupError::BadGeometry));
    let mut c = cells(4, 8);
    c.sq_ring_mask = 7;
    assert_eq!(IoUring::new(3, 0, layout, c).err(), Some(SetupError::BadGeometry));
    let mut c = cells(4, 8);
    c.cq_ring_entries = 16;
    c.cq_ring_mask = 15;
    assert_eq!(IoUring::new(3, 0, layout, c).err(), Some(SetupError::BadGeometry));
}

#[test]
fn regions_map_and_release_in_reverse() {
    assert_eq!(map_order(), vec![Region::SqRing, Region::Sqes, Region::CqRing]);
    assert_eq!(teardown_order(), vec![Region::CqRing, Region::Sqes, Region::SqRing]);
    assert_eq!(unwind_after(Region::SqRing), vec![]);
    assert_eq!(unwind_after(Region::Sqes), vec![Region::SqRing]);
    assert_eq!(unwind_after(Region::CqRing), vec![Region::Sqes, Region::SqRing]);
    assert_eq!(mmap_offset(Region::SqRing), IORING_OFF_SQ_RING);
    assert_eq!(mmap_offset(Region::Sqes), 0x1000_0000);
    assert_eq!(mmap_offset(Region::CqRing), IORING_OFF_CQ_RING);
    assert_eq!(IORING_OFF_SQES, 0x1000_0000);
}

#[test]
fn enter_policy_without_polling_thread() {
    let r = ring(4, 8, 0);
    assert!(!r.sqpoll());
    assert_eq!(r.sq_ring_needs_enter(IORING_SQ_NEED_WAKEUP), Some(0));
    assert_eq!(r.do_submit(3, 0, 0), EnterAction::Enter { to_submit: 3, min_complete: 0, flags: 0 });
    assert_eq!(
        r.do_submit(3, 2, 0),
        EnterAction::Enter { to_submit: 3, min_complete: 2, flags: IORING_ENTER_GETEVENTS }
    );
}

#[test]
fn enter_policy_with_polling_thread() {
    let r = ring(4, 8, IORING_SETUP_SQPOLL);
    assert!(r.sqpoll());
    assert_eq!(r.sq_ring_needs_enter(0), None);
    assert_eq!(r.sq_ring_needs_enter(IORING_SQ_NEED_WAKEUP), Some(IORING_ENTER_SQ_WAKEUP));
    assert_eq!(r.do_submit(2, 0, 0), EnterAction::Return(2));
    assert_eq!(
        r.do_submit(2, 0, IORING_SQ_NEED_WAKEUP),
        EnterAction::Enter { to_submit: 2, min_complete: 0, flags: IORING_ENTER_SQ_WAKEUP }
    );
    assert_eq!(
        r.do_submit(2, 1, 0),
        EnterAction::Enter { to_submit: 2, min_complete: 1, flags: IORING_ENTER_GETEVENTS }
    );
    assert_eq!(
        r.do_submit(2, 1, IORING_SQ_NEED_WAKEUP),
        EnterAction::Enter { to_submit: 2, min_complete: 1, flags: IORING_ENTER_GETEVENTS | IORING_ENTER_SQ_WAKEUP }
    );
}

#[test]
fn wait_is_clamped_to_submitted() {
    let r = ring(4, 8, 0);
    assert_eq!(
        r.do_submit(2, 10, 0),
        EnterAction::Enter { to_submit: 2, min_complete: 2, flags: IORING_ENTER_GETEVENTS }
    );
}

#[test]
fn submit_with_nothing_published_returns_zero() {
    let r = ring(4, 8, 0);
    assert_eq!(r.submit_action(0, 5, 0), EnterAction::Return(0));
    assert_eq!(r.submit_action(0, 0, IORING_SQ_NEED_WAKEUP), EnterAction::Return(0));
}

#[test]
fn enter_outcome_maps_errors() {
    assert_eq!(IoUring::enter_outcome(-1, 4), Err(4));
    assert_eq!(IoUring::enter_outcome(3, 0), Ok(3));
    assert_eq!(IoUring::enter_outcome(0, 9), Ok(0));
}

#[test]
fn nop_round_through_the_handle() {
    // depth 4, one NOP with token 0xDEADBEEF, then wait for one completion
    let mut r = ring(4, 8, 0);
    let mut e = r.get_sqe().unwrap();
    e.prep_nop();
    e.set_data(0xDEAD_BEEF);
    let b = e.encode();
    assert_eq!(b[0], IORING_OP_NOP);
    let plan = r.flush_sq(0);
    assert_eq!(plan.submitted(), 1);
    assert_eq!(plan.writes[0].ring_slot, 0);
    assert_eq!(plan.writes[0].sqe_index, e.index);
    assert_eq!(plan.new_tail, 1);
    assert_eq!(
        r.submit_action(plan.submitted(), 1, 0),
        EnterAction::Enter { to_submit: 1, min_complete: 1, flags: IORING_ENTER_GETEVENTS }
    );
    assert_eq!(IoUring::enter_outcome(1, 0), Ok(1));
    // the kernel posts one completion
    assert_eq!(r.peek_cqe(1), Some(0));
    let mut cqe = vec![0u8; 16];
    cqe[0..8].copy_from_slice(&b[32..40]);
    let c = iouring::abi::Cqe::decode(&cqe);
    assert_eq!(c.user_data, 0xDEAD_BEEF);
    assert_eq!(c.res, 0);
    assert_eq!(r.cqe_seen(1, 1), 1);
    assert_eq!(r.peek_cqe(1), None);
}

#[test]
fn saturation_through_the_handle() {
    let mut r = ring(2, 4, 0);
    assert!(r.get_sqe().is_some());
    assert!(r.get_sqe().is_some());
    assert!(r.get_sqe().is_none());
    let plan = r.flush_sq(0);
    assert_eq!(plan.submitted(), 2);
    assert_eq!(
        r.submit_action(plan.submitted(), 1, 0),
        EnterAction::Enter { to_submit: 2, min_complete: 1, flags: IORING_ENTER_GETEVENTS }
    );
    assert_eq!(r.peek_cqe(1), Some(0));
    assert_eq!(r.cqe_seen(1, 1), 1);
    let e = r.get_sqe().unwrap();
    assert_eq!(e.index, 0);
}

#[test]
fn second_submit_enters_nothing() {
    let mut r = ring(4, 8, 0);
    r.get_sqe().unwrap();
    let first = r.flush_sq(0);
    assert_eq!(r.submit_action(first.submitted(), 0, 0), EnterAction::Enter { to_submit: 1, min_complete: 0, flags: 0 });
    let second = r.flush_sq(first.new_tail);
    assert_eq!(second.submitted(), 0);
    assert_eq!(r.submit_action(second.submitted(), 0, 0), EnterAction::Return(0));
}

#[test]
fn sqpoll_wakes_only_when_needed() {
    let mut r = ring(4, 8, IORING_SETUP_SQPOLL);
    r.get_sqe().unwrap().prep_nop();
    let plan = r.flush_sq(0);
    assert_eq!(r.submit_action(plan.submitted(), 0, 0), EnterAction::Return(1));
    assert_eq!(
        r.submit_action(plan.submitted(), 0, IORING_SQ_NEED_WAKEUP),
        EnterAction::Enter { to_submit: 1, min_complete: 0, flags: IORING_ENTER_SQ_WAKEUP }
    );
}

#[test]
fn poll_remove_targets_poll_token() {
    let mut r = ring(4, 8, 0);
    let mut add = r.get_sqe().unwrap();
    add.prep_poll_add(5, 1);
    add.set_data(1);
    let mut rm = r.get_sqe().unwrap();
    rm.prep_poll_remove(1);
    assert_ne!(add.index, rm.index);
    assert_eq!(rm.addr, add.user_data);
    let plan = r.flush_sq(0);
    assert_eq!(plan.submitted(), 2);
    assert_eq!(plan.writes[0].sqe_index, add.index);
    assert_eq!(plan.writes[1].sqe_index, rm.index);
}
