use iouring::abi::{
    Cqe, CqRingOffsets, Params, SqRingOffsets, IORING_OP_NOP, IORING_OP_POLL_ADD, IORING_OP_POLL_REMOVE,
    IORING_OP_READV, IORING_OP_WRITEV, IOSQE_IO_DRAIN, IOSQE_IO_LINK, IORING_SETUP_SQPOLL,
    CQE_SIZE, PARAMS_SIZE, SQE_SIZE,
};
use iouring::abi::setup_flags_from_bits;
use iouring::entry::SQEntry;

fn u32_at(b: &[u8], at: usize) -> u32 {
    u32::from_le_bytes([b[at], b[at + 1], b[at + 2], b[at + 3]])
}

fn u64_at(b: &[u8], at: usize) -> u64 {
    let mut w = [0u8; 8];
    w.copy_from_slice(&b[at..at + 8]);
    u64::from_le_bytes(w)
}

#[test]
fn sqe_readv_layout() {
    let mut e = SQEntry::zeroed(5);
    e.prep_readv(7, 0x1122_3344_5566_7788, 3, 4096);
    e.set_data(0xAABB);
    let b = e.encode();
    assert_eq!(b.len(), SQE_SIZE);
    assert_eq!(b[0], IORING_OP_READV);
    assert_eq!(b[1], 0);
    assert_eq!(u32_at(&b, 4), 7);
    assert_eq!(u64_at(&b, 8), 4096);
    assert_eq!(u64_at(&b, 16), 0x1122_3344_5566_7788);
    assert_eq!(u32_at(&b, 24), 3);
    assert_eq!(u32_at(&b, 28), 0);
    assert_eq!(u64_at(&b, 32), 0xAABB);
    assert!(b[40..].iter().all(|&x| x == 0));
    assert_eq!(e.index, 5);
}

#[test]
fn sqe_writev_uses_writev_opcode() {
    let mut e = SQEntry::zeroed(0);
    e.prep_writev(3, 0x1000, 2, 8);
    assert_eq!(e.opcode, IORING_OP_WRITEV);
    assert_eq!(e.encode()[0], 2);
}

#[test]
fn sqe_negative_fd_and_nop() {
    let mut e = SQEntry::zeroed(1);
    e.set_data(99);
    e.prep_nop();
    assert_eq!(e.user_data, 0);
    assert_eq!(e.fd, -1);
    assert_eq!(e.opcode, IORING_OP_NOP);
    let b = e.encode();
    assert_eq!(&b[4..8], &[0xff, 0xff, 0xff, 0xff]);
}

#[test]
fn sqe_prep_clears_previous_fields() {
    let mut e = SQEntry::zeroed(2);
    e.prep_fsync(9, 1);
    e.set_flags(IOSQE_IO_LINK);
    e.prep_readv(4, 0x20, 1, 0);
    assert_eq!(e.op_flags, 0);
    assert_eq!(e.flags, 0);
    e.reset();
    assert_eq!(e, SQEntry::zeroed(2));
}

#[test]
fn sqe_flags_drop_unknown_bits() {
    let mut e = SQEntry::zeroed(0);
    e.set_flags(0xff);
    assert_eq!(e.flags, 7);
    e.set_flags(IOSQE_IO_DRAIN | 0x40);
    assert_eq!(e.flags, IOSQE_IO_DRAIN);
    assert_eq!(e.encode()[1], IOSQE_IO_DRAIN);
}

#[test]
fn sqe_poll_add_and_remove() {
    let mut add = SQEntry::zeroed(0);
    add.prep_poll_add(5, 0x0001);
    add.set_data(1);
    let b = add.encode();
    assert_eq!(b[0], IORING_OP_POLL_ADD);
    assert_eq!(u32_at(&b, 4), 5);
    assert_eq!(u32_at(&b, 28), 1);
    assert_eq!(u64_at(&b, 32), 1);

    let mut rm = SQEntry::zeroed(1);
    rm.prep_poll_remove(1);
    let b = rm.encode();
    assert_eq!(b[0], IORING_OP_POLL_REMOVE);
    assert_eq!(u64_at(&b, 16), 1);
    assert_eq!(u32_at(&b, 4), u32::MAX);
}

#[test]
fn sqe_other_preparers() {
    let mut e = SQEntry::zeroed(0);
    e.prep_sync_file_range(3, 100, 200, 2);
    assert_eq!((e.opcode, e.len, e.off, e.op_flags), (8, 100, 200, 2));
    e.prep_sendmsg(4, 0x500, 0x40);
    assert_eq!((e.opcode, e.fd, e.addr, e.len, e.op_flags), (9, 4, 0x500, 1, 0x40));
    e.prep_recvmsg(4, 0x600, 0);
    assert_eq!((e.opcode, e.addr, e.len), (10, 0x600, 1));
    e.prep_read_fixed(3, 0x700, 512, 1024, 6);
    assert_eq!((e.opcode, e.addr, e.len, e.off, e.buf_index), (4, 0x700, 512, 1024, 6));
    let b = e.encode();
    assert_eq!(u16::from_le_bytes([b[40], b[41]]), 6);
    e.prep_write_fixed(3, 0x700, 512, 0, 2);
    assert_eq!((e.opcode, e.buf_index), (5, 2));
}

#[test]
fn sqe_slice_preparers() {
    let data = [1u8, 2, 3];
    let more = [4u8; 10];
    let bufs = [std::io::IoSlice::new(&data), std::io::IoSlice::new(&more)];
    let mut e = SQEntry::zeroed(3);
    e.prep_write_slice(8, &bufs, 16);
    assert_eq!(e.opcode, IORING_OP_WRITEV);
    assert_eq!(e.len, 2);
    assert_eq!(e.fd, 8);
    assert_eq!(e.off, 16);
    assert_eq!(e.addr, bufs.as_ptr() as u64);
    assert_ne!(e.addr, 0);

    let mut buf = [0u8; 4];
    let mut rbufs = [std::io::IoSliceMut::new(&mut buf)];
    let addr = rbufs.as_ptr() as u64;
    let mut r = SQEntry::zeroed(4);
    r.prep_read_slice(9, &rbufs, 0);
    assert_eq!(r.opcode, IORING_OP_READV);
    assert_eq!(r.len, 1);
    assert_eq!(r.addr, addr);
}

#[test]
fn cqe_decode() {
    let mut b = vec![0u8; CQE_SIZE];
    b[0..8].copy_from_slice(&0xDEAD_BEEFu64.to_le_bytes());
    b[8..12].copy_from_slice(&(-11i32).to_le_bytes());
    b[12..16].copy_from_slice(&3u32.to_le_bytes());
    let c = Cqe::decode(&b);
    assert_eq!(c, Cqe { user_data: 0xDEAD_BEEF, res: -11, flags: 3 });
}

#[test]
fn cqe_carries_sqe_token() {
    let mut e = SQEntry::zeroed(0);
    e.prep_nop();
    e.set_data(0x0123_4567_89ab_cdef);
    let sqe = e.encode();
    let mut cqe = vec![0u8; CQE_SIZE];
    cqe[0..8].copy_from_slice(&sqe[32..40]);
    assert_eq!(Cqe::decode(&cqe).user_data, 0x0123_4567_89ab_cdef);
}

fn sample_params() -> Params {
    Params {
        sq_entries: 4,
        cq_entries: 8,
        flags: IORING_SETUP_SQPOLL,
        sq_thread_cpu: 1,
        sq_thread_idle: 2000,
        sq_off: SqRingOffsets { head: 0, tail: 64, ring_mask: 256, ring_entries: 264, flags: 276, dropped: 272, array: 384 },
        cq_off: CqRingOffsets { head: 128, tail: 192, ring_mask: 260, ring_entries: 268, overflow: 284, cqes: 320 },
    }
}

#[test]
fn params_layout_and_round_trip() {
    let p = sample_params();
    let b = p.encode();
    assert_eq!(b.len(), PARAMS_SIZE);
    assert_eq!(u32_at(&b, 0), 4);
    assert_eq!(u32_at(&b, 4), 8);
    assert_eq!(u32_at(&b, 8), IORING_SETUP_SQPOLL);
    assert_eq!(u32_at(&b, 16), 2000);
    assert_eq!(u32_at(&b, 44), 64);
    assert_eq!(u32_at(&b, 64), 384);
    assert_eq!(u32_at(&b, 100), 320);
    assert!(b[20..40].iter().all(|&x| x == 0));
    assert!(b[68..80].iter().all(|&x| x == 0));
    assert!(b[104..120].iter().all(|&x| x == 0));
    assert_eq!(Params::decode(&b), p);
}

#[test]
fn params_request_with_flags() {
    let p = Params::with_flags(IORING_SETUP_SQPOLL);
    let b = p.encode();
    assert_eq!(u32_at(&b, 8), 2);
    assert_eq!(b.iter().filter(|&&x| x != 0).count(), 1);
}

#[test]
fn setup_flags_known_and_unknown() {
    assert_eq!(setup_flags_from_bits(0), Some(0));
    assert_eq!(setup_flags_from_bits(0xf), Some(0xf));
    assert_eq!(setup_flags_from_bits(0x10), None);
}
