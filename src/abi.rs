//! The kernel's side of the interface: system call numbers, opcodes, flag
//! bits, the magic mapping offsets, and the setup parameter and completion
//! records with their exact byte layout.
use vstd::prelude::*;
use crate::le::{le_u32, le_u64, put_u32, read_u32, read_u64, zero_bytes, zeroed};

verus! {

// System call numbers on x86_64.
pub const SYS_IO_URING_SETUP: i64 = 425;
pub const SYS_IO_URING_ENTER: i64 = 426;
pub const SYS_IO_URING_REGISTER: i64 = 427;

/// Size in bytes of the kernel's signal set, `NSIG / 8`. `io_uring_enter`
/// wants this, not the C library's `sizeof(sigset_t)`.
pub const KERNEL_SIGSET_SIZE: u32 = 8;

// Offsets at which the three shared regions are mapped from the ring's fd.
pub const IORING_OFF_SQ_RING: i64 = 0;
pub const IORING_OFF_CQ_RING: i64 = 0x0800_0000;
pub const IORING_OFF_SQES: i64 = 0x1000_0000;

// Operations.
pub const IORING_OP_NOP: u8 = 0;
pub const IORING_OP_READV: u8 = 1;
pub const IORING_OP_WRITEV: u8 = 2;
pub const IORING_OP_FSYNC: u8 = 3;
pub const IORING_OP_READ_FIXED: u8 = 4;
pub const IORING_OP_WRITE_FIXED: u8 = 5;
pub const IORING_OP_POLL_ADD: u8 = 6;
pub const IORING_OP_POLL_REMOVE: u8 = 7;
pub const IORING_OP_SYNC_FILE_RANGE: u8 = 8;
pub const IORING_OP_SENDMSG: u8 = 9;
pub const IORING_OP_RECVMSG: u8 = 10;
/// Never sent to the kernel; marks an entry that holds no operation.
pub const IORING_OP_INVALID: u8 = 250;

// Flags of a submission entry.
/// The fd is an index into the registered file set.
pub const IOSQE_FIXED_FILE: u8 = 1;
/// Issue only after every earlier request has completed.
pub const IOSQE_IO_DRAIN: u8 = 2;
/// Chain with the next entry.
pub const IOSQE_IO_LINK: u8 = 4;
/// Every flag of a submission entry this library knows.
pub const IOSQE_ALL: u8 = 7;

// Setup flags.
/// The kernel polls device queues for completions.
pub const IORING_SETUP_IOPOLL: u32 = 1;
/// A kernel thread drains the submission ring.
pub const IORING_SETUP_SQPOLL: u32 = 2;
/// `sq_thread_cpu` is valid.
pub const IORING_SETUP_SQ_AFF: u32 = 4;
/// `cq_entries` is chosen by the caller.
pub const IORING_SETUP_CQSIZE: u32 = 8;
/// Every setup flag this library knows.
pub const IORING_SETUP_ALL: u32 = 0xf;

/// Status flag of the submission ring: the polling thread went idle and
/// needs an enter with `IORING_ENTER_SQ_WAKEUP`.
pub const IORING_SQ_NEED_WAKEUP: u32 = 1;

// Flags of `io_uring_enter`.
pub const IORING_ENTER_GETEVENTS: u32 = 1;
pub const IORING_ENTER_SQ_WAKEUP: u32 = 2;

// Record sizes in bytes.
pub const SQE_SIZE: usize = 64;
pub const CQE_SIZE: usize = 16;
pub const PARAMS_SIZE: usize = 120;

/// Whether every bit of `flags` is a setup flag this library knows.
pub open spec fn known_setup_flags(flags: u32) -> bool {
    flags & !IORING_SETUP_ALL == 0
}

/// The setup flags, or `None` where the kernel reported a bit this library
/// does not know.
pub fn setup_flags_from_bits(flags: u32) -> (r: Option<u32>)
    ensures
        r == (if known_setup_flags(flags) { Some(flags) } else { None::<u32> }),
{
    if flags & !IORING_SETUP_ALL == 0 {
        Some(flags)
    } else {
        None
    }
}

/// Offsets of the cells of the submission ring, from the start of its region.
#[derive(Clone, Copy, Debug, PartialEq, Eq)]
pub struct SqRingOffsets {
    pub head: u32,
    pub tail: u32,
    pub ring_mask: u32,
    pub ring_entries: u32,
    pub flags: u32,
    pub dropped: u32,
    pub array: u32,
}

/// Offsets of the cells of the completion ring, from the start of its region.
#[derive(Clone, Copy, Debug, PartialEq, Eq)]
pub struct CqRingOffsets {
    pub head: u32,
    pub tail: u32,
    pub ring_mask: u32,
    pub ring_entries: u32,
    pub overflow: u32,
    pub cqes: u32,
}

/// The parameter record of `io_uring_setup`: the caller fills the flags and
/// thread settings, the kernel fills in the ring sizes and offsets.
#[derive(Clone, Copy, Debug, PartialEq, Eq)]
pub struct Params {
    pub sq_entries: u32,
    pub cq_entries: u32,
    pub flags: u32,
    pub sq_thread_cpu: u32,
    pub sq_thread_idle: u32,
    pub sq_off: SqRingOffsets,
    pub cq_off: CqRingOffsets,
}

impl Params {
    /// Where each field of the record stands in its 120 bytes.
    pub open spec fn stored_in(&self, b: Seq<u8>) -> bool {
        &&& b.len() == PARAMS_SIZE
        &&& le_u32(b, 0) == self.sq_entries
        &&& le_u32(b, 4) == self.cq_entries
        &&& le_u32(b, 8) == self.flags
        &&& le_u32(b, 12) == self.sq_thread_cpu
        &&& le_u32(b, 16) == self.sq_thread_idle
        &&& le_u32(b, 40) == self.sq_off.head
        &&& le_u32(b, 44) == self.sq_off.tail
        &&& le_u32(b, 48) == self.sq_off.ring_mask
        &&& le_u32(b, 52) == self.sq_off.ring_entries
        &&& le_u32(b, 56) == self.sq_off.flags
        &&& le_u32(b, 60) == self.sq_off.dropped
        &&& le_u32(b, 64) == self.sq_off.array
        &&& le_u32(b, 80) == self.cq_off.head
        &&& le_u32(b, 84) == self.cq_off.tail
        &&& le_u32(b, 88) == self.cq_off.ring_mask
        &&& le_u32(b, 92) == self.cq_off.ring_entries
        &&& le_u32(b, 96) == self.cq_off.overflow
        &&& le_u32(b, 100) == self.cq_off.cqes
    }

    /// The reserved parts of the record, which the caller leaves zero.
    pub open spec fn reserved_zero(b: Seq<u8>) -> bool {
        &&& zero_bytes(b, 20, 20)
        &&& zero_bytes(b, 68, 12)
        &&& zero_bytes(b, 104, 16)
    }

    /// A request with the given setup flags and every other field zero.
    pub fn with_flags(flags: u32) -> (r: Params)
        ensures
            r.flags == flags,
            r.sq_entries == 0,
            r.cq_entries == 0,
            r.sq_thread_cpu == 0,
            r.sq_thread_idle == 0,
            r.sq_off == (SqRingOffsets {
                head: 0,
                tail: 0,
                ring_mask: 0,
                ring_entries: 0,
                flags: 0,
                dropped: 0,
                array: 0,
            }),
            r.cq_off == (CqRingOffsets { head: 0, tail: 0, ring_mask: 0, ring_entries: 0, overflow: 0, cqes: 0 }),
    {
        Params {
            sq_entries: 0,
            cq_entries: 0,
            flags,
            sq_thread_cpu: 0,
            sq_thread_idle: 0,
            sq_off: SqRingOffsets {
                head: 0,
                tail: 0,
                ring_mask: 0,
                ring_entries: 0,
                flags: 0,
                dropped: 0,
                array: 0,
            },
            cq_off: CqRingOffsets {
                head: 0,
                tail: 0,
                ring_mask: 0,
                ring_entries: 0,
                overflow: 0,
                cqes: 0,
            },
        }
    }

    /// The record as the kernel reads it, reserved bytes zero.
    pub fn encode(&self) -> (b: Vec<u8>)
        ensures
            self.stored_in(b@),
            Self::reserved_zero(b@),
    {
        let mut b = zeroed(PARAMS_SIZE);
        put_u32(&mut b, 0, self.sq_entries);
        put_u32(&mut b, 4, self.cq_entries);
        put_u32(&mut b, 8, self.flags);
        put_u32(&mut b, 12, self.sq_thread_cpu);
        put_u32(&mut b, 16, self.sq_thread_idle);
        put_u32(&mut b, 40, self.sq_off.head);
        put_u32(&mut b, 44, self.sq_off.tail);
        put_u32(&mut b, 48, self.sq_off.ring_mask);
        put_u32(&mut b, 52, self.sq_off.ring_entries);
        put_u32(&mut b, 56, self.sq_off.flags);
        put_u32(&mut b, 60, self.sq_off.dropped);
        put_u32(&mut b, 64, self.sq_off.array);
        put_u32(&mut b, 80, self.cq_off.head);
        put_u32(&mut b, 84, self.cq_off.tail);
        put_u32(&mut b, 88, self.cq_off.ring_mask);
        put_u32(&mut b, 92, self.cq_off.ring_entries);
        put_u32(&mut b, 96, self.cq_off.overflow);
        put_u32(&mut b, 100, self.cq_off.cqes);
        b
    }

    /// Reads the record back from its 120 bytes; the reserved parts are
    /// ignored.
    pub fn decode(b: &Vec<u8>) -> (r: Params)
        requires
            b@.len() == PARAMS_SIZE,
        ensures
            r.stored_in(b@),
    {
        Params {
            sq_entries: read_u32(b, 0),
            cq_entries: read_u32(b, 4),
            flags: read_u32(b, 8),
            sq_thread_cpu: read_u32(b, 12),
            sq_thread_idle: read_u32(b, 16),
            sq_off: SqRingOffsets {
                head: read_u32(b, 40),
                tail: read_u32(b, 44),
                ring_mask: read_u32(b, 48),
                ring_entries: read_u32(b, 52),
                flags: read_u32(b, 56),
                dropped: read_u32(b, 60),
                array: read_u32(b, 64),
            },
            cq_off: CqRingOffsets {
                head: read_u32(b, 80),
                tail: read_u32(b, 84),
                ring_mask: read_u32(b, 88),
                ring_entries: read_u32(b, 92),
                overflow: read_u32(b, 96),
                cqes: read_u32(b, 100),
            },
        }
    }
}

/// A completion record as the kernel posts it.
#[derive(Clone, Copy, Debug, PartialEq, Eq)]
pub struct Cqe {
    /// The token of the submission this completes, returned verbatim.
    pub user_data: u64,
    /// The operation's result, or a negative errno.
    pub res: i32,
    pub flags: u32,
}

impl Cqe {
    /// Where each field of the record stands in its 16 bytes.
    pub open spec fn stored_in(&self, b: Seq<u8>) -> bool {
        &&& b.len() == CQE_SIZE
        &&& le_u64(b, 0) == self.user_data
        &&& le_u32(b, 8) == self.res as u32
        &&& le_u32(b, 12) == self.flags
    }

    /// Reads a completion record from its 16 bytes.
    pub fn decode(b: &Vec<u8>) -> (r: Cqe)
        requires
            b@.len() == CQE_SIZE,
        ensures
            r.stored_in(b@),
    {
        let res_bits = read_u32(b, 8);
        let res = res_bits as i32;
        assert(res as u32 == res_bits) by (bit_vector)
            requires
                res == res_bits as i32,
        ;
        Cqe { user_data: read_u64(b, 0), res, flags: read_u32(b, 12) }
    }
}

} // verus!
