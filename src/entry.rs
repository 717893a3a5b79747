//! Submission entries: the 64-byte record the kernel reads from the entry
//! pool, and the preparers that fill it for each operation.
use vstd::prelude::*;
use crate::abi::{
    IORING_OP_FSYNC, IORING_OP_NOP, IORING_OP_POLL_ADD, IORING_OP_POLL_REMOVE,
    IORING_OP_READ_FIXED, IORING_OP_READV, IORING_OP_RECVMSG, IORING_OP_SENDMSG,
    IORING_OP_SYNC_FILE_RANGE, IORING_OP_WRITE_FIXED, IORING_OP_WRITEV, IOSQE_ALL, SQE_SIZE,
};
use crate::le::{le_u16, le_u32, le_u64, put_u16, put_u32, put_u64, zero_bytes, zeroed};

verus! {

#[verifier::external_type_specification]
#[verifier::external_body]
pub struct ExIoSlice<'a>(std::io::IoSlice<'a>);

#[verifier::external_type_specification]
#[verifier::external_body]
pub struct ExIoSliceMut<'a>(std::io::IoSliceMut<'a>);

/// Relies on `<[T]>::as_ptr`: the address of the first buffer descriptor.
/// `IoSlice` is documented to be ABI compatible with `iovec` on Unix, so the
/// address is that of an `iovec` array.
#[verifier::external_body]
fn io_slices_addr(bufs: &[std::io::IoSlice]) -> u64 {
    bufs.as_ptr() as u64
}

/// Relies on `<[T]>::as_ptr`: the address of the first buffer descriptor.
/// `IoSliceMut` is documented to be ABI compatible with `iovec` on Unix, so
/// the address is that of an `iovec` array.
#[verifier::external_body]
fn io_slices_mut_addr(bufs: &[std::io::IoSliceMut]) -> u64 {
    bufs.as_ptr() as u64
}

/// A submission entry handed out by the ring: the slot of the entry pool it
/// occupies, and the fields that will be written there.
///
/// `op_flags` is the operation-specific word at byte 28 of the record: the
/// read/write flags, the fsync flags, the poll mask (in its low 16 bits),
/// the sync-range flags or the message flags, by opcode.
#[derive(Clone, Copy, Debug, PartialEq, Eq)]
pub struct SQEntry {
    pub index: u32,
    pub opcode: u8,
    pub flags: u8,
    pub ioprio: u16,
    pub fd: i32,
    pub off: u64,
    pub addr: u64,
    pub len: u32,
    pub op_flags: u32,
    pub user_data: u64,
    pub buf_index: u16,
}

impl SQEntry {
    /// Every field but the slot is zero.
    pub open spec fn is_zeroed(&self) -> bool {
        &&& self.opcode == 0
        &&& self.flags == 0
        &&& self.ioprio == 0
        &&& self.fd == 0
        &&& self.off == 0
        &&& self.addr == 0
        &&& self.len == 0
        &&& self.op_flags == 0
        &&& self.user_data == 0
        &&& self.buf_index == 0
    }

    /// The entry as the common read/write preparation leaves it: the given
    /// operation, file, address, length and offset, every other field zero.
    pub open spec fn is_rw(&self, op: u8, fd: i32, addr: u64, len: u32, off: u64) -> bool {
        &&& self.opcode == op
        &&& self.flags == 0
        &&& self.ioprio == 0
        &&& self.fd == fd
        &&& self.off == off
        &&& self.addr == addr
        &&& self.len == len
        &&& self.op_flags == 0
        &&& self.user_data == 0
        &&& self.buf_index == 0
    }

    /// A zeroed entry for slot `index` of the pool.
    pub fn zeroed(index: u32) -> (r: SQEntry)
        ensures
            r.index == index,
            r.is_zeroed(),
    {
        SQEntry {
            index,
            opcode: 0,
            flags: 0,
            ioprio: 0,
            fd: 0,
            off: 0,
            addr: 0,
            len: 0,
            op_flags: 0,
            user_data: 0,
            buf_index: 0,
        }
    }

    /// Clears every field; the slot stays.
    pub fn reset(&mut self)
        ensures
            final(self).index == old(self).index,
            final(self).is_zeroed(),
    {
        *self = SQEntry::zeroed(self.index);
    }

    fn prep_rw(&mut self, op: u8, fd: i32, addr: u64, len: u32, off: u64)
        ensures
            final(self).index == old(self).index,
            final(self).is_rw(op, fd, addr, len, off),
    {
        *self = SQEntry {
            index: self.index,
            opcode: op,
            flags: 0,
            ioprio: 0,
            fd,
            off,
            addr,
            len,
            op_flags: 0,
            user_data: 0,
            buf_index: 0,
        };
    }

    /// Sets the token that the kernel returns in the completion.
    pub fn set_data(&mut self, data: u64)
        ensures
            *final(self) == (SQEntry { user_data: data, ..*old(self) }),
    {
        self.user_data = data;
    }

    /// Sets the entry's flags; bits other than `IOSQE_FIXED_FILE`,
    /// `IOSQE_IO_DRAIN` and `IOSQE_IO_LINK` are dropped.
    pub fn set_flags(&mut self, flags: u8)
        ensures
            *final(self) == (SQEntry { flags: flags & IOSQE_ALL, ..*old(self) }),
    {
        self.flags = flags & IOSQE_ALL;
    }

    /// A vectored read into the `nr_vecs` buffers described at `iovecs`,
    /// from offset `off` of `fd`.
    pub fn prep_readv(&mut self, fd: i32, iovecs: u64, nr_vecs: u32, off: u64)
        ensures
            final(self).index == old(self).index,
            final(self).is_rw(IORING_OP_READV, fd, iovecs, nr_vecs, off),
    {
        self.prep_rw(IORING_OP_READV, fd, iovecs, nr_vecs, off)
    }

    /// A vectored write from the `nr_vecs` buffers described at `iovecs`,
    /// to offset `off` of `fd`.
    pub fn prep_writev(&mut self, fd: i32, iovecs: u64, nr_vecs: u32, off: u64)
        ensures
            final(self).index == old(self).index,
            final(self).is_rw(IORING_OP_WRITEV, fd, iovecs, nr_vecs, off),
    {
        self.prep_rw(IORING_OP_WRITEV, fd, iovecs, nr_vecs, off)
    }

    /// A vectored write from the buffers `bufs`, to offset `off` of `fd`.
    /// The buffers must stay alive and unmoved until the completion is seen.
    pub fn prep_write_slice(&mut self, fd: i32, bufs: &[std::io::IoSlice], off: u64)
        requires
            bufs@.len() <= u32::MAX,
        ensures
            final(self).index == old(self).index,
            final(self).is_rw(IORING_OP_WRITEV, fd, final(self).addr, bufs@.len() as u32, off),
    {
        let addr = io_slices_addr(bufs);
        self.prep_writev(fd, addr, bufs.len() as u32, off)
    }

    /// A vectored read into the buffers `bufs`, from offset `off` of `fd`.
    /// The buffers must stay alive and unmoved until the completion is seen.
    pub fn prep_read_slice(&mut self, fd: i32, bufs: &[std::io::IoSliceMut], off: u64)
        requires
            bufs@.len() <= u32::MAX,
        ensures
            final(self).index == old(self).index,
            final(self).is_rw(IORING_OP_READV, fd, final(self).addr, bufs@.len() as u32, off),
    {
        let addr = io_slices_mut_addr(bufs);
        self.prep_readv(fd, addr, bufs.len() as u32, off)
    }

    /// An operation that does nothing and completes with result 0.
    pub fn prep_nop(&mut self)
        ensures
            final(self).index == old(self).index,
            final(self).is_rw(IORING_OP_NOP, -1i32, 0, 0, 0),
    {
        self.prep_rw(IORING_OP_NOP, -1, 0, 0, 0)
    }

    /// Flushes `fd` to storage; `fsync_flags` as the kernel defines them.
    pub fn prep_fsync(&mut self, fd: i32, fsync_flags: u32)
        ensures
            final(self).index == old(self).index,
            (SQEntry { op_flags: 0, ..*final(self) }).is_rw(IORING_OP_FSYNC, fd, 0, 0, 0),
            final(self).op_flags == fsync_flags,
    {
        self.prep_rw(IORING_OP_FSYNC, fd, 0, 0, 0);
        self.op_flags = fsync_flags;
    }

    /// Waits until `fd` is ready for one of the events in `poll_mask`.
    pub fn prep_poll_add(&mut self, fd: i32, poll_mask: u16)
        ensures
            final(self).index == old(self).index,
            (SQEntry { op_flags: 0, ..*final(self) }).is_rw(IORING_OP_POLL_ADD, fd, 0, 0, 0),
            final(self).op_flags == poll_mask as u32,
    {
        self.prep_rw(IORING_OP_POLL_ADD, fd, 0, 0, 0);
        self.op_flags = poll_mask as u32;
    }

    /// Cancels the pending poll request submitted with token `user_data`.
    pub fn prep_poll_remove(&mut self, user_data: u64)
        ensures
            final(self).index == old(self).index,
            final(self).is_rw(IORING_OP_POLL_REMOVE, -1i32, user_data, 0, 0),
    {
        self.prep_rw(IORING_OP_POLL_REMOVE, -1, user_data, 0, 0)
    }

    /// Syncs `len` bytes of `fd` from offset `off`; `flags` as for
    /// `sync_file_range(2)`.
    pub fn prep_sync_file_range(&mut self, fd: i32, len: u32, off: u64, flags: u32)
        ensures
            final(self).index == old(self).index,
            (SQEntry { op_flags: 0, ..*final(self) }).is_rw(IORING_OP_SYNC_FILE_RANGE, fd, 0, len, off),
            final(self).op_flags == flags,
    {
        self.prep_rw(IORING_OP_SYNC_FILE_RANGE, fd, 0, len, off);
        self.op_flags = flags;
    }

    /// Sends the message described at `msg` on socket `fd`.
    pub fn prep_sendmsg(&mut self, fd: i32, msg: u64, flags: u32)
        ensures
            final(self).index == old(self).index,
            (SQEntry { op_flags: 0, ..*final(self) }).is_rw(IORING_OP_SENDMSG, fd, msg, 1, 0),
            final(self).op_flags == flags,
    {
        self.prep_rw(IORING_OP_SENDMSG, fd, msg, 1, 0);
        self.op_flags = flags;
    }

    /// Receives into the message described at `msg` from socket `fd`.
    pub fn prep_recvmsg(&mut self, fd: i32, msg: u64, flags: u32)
        ensures
            final(self).index == old(self).index,
            (SQEntry { op_flags: 0, ..*final(self) }).is_rw(IORING_OP_RECVMSG, fd, msg, 1, 0),
            final(self).op_flags == flags,
    {
        self.prep_rw(IORING_OP_RECVMSG, fd, msg, 1, 0);
        self.op_flags = flags;
    }

    /// Reads `nbytes` into registered buffer `buf_index`, at address `buf`,
    /// from offset `off` of `fd`.
    pub fn prep_read_fixed(&mut self, fd: i32, buf: u64, nbytes: u32, off: u64, buf_index: u16)
        ensures
            final(self).index == old(self).index,
            (SQEntry { buf_index: 0, ..*final(self) }).is_rw(IORING_OP_READ_FIXED, fd, buf, nbytes, off),
            final(self).buf_index == buf_index,
    {
        self.prep_rw(IORING_OP_READ_FIXED, fd, buf, nbytes, off);
        self.buf_index = buf_index;
    }

    /// Writes `nbytes` from registered buffer `buf_index`, at address `buf`,
    /// to offset `off` of `fd`.
    pub fn prep_write_fixed(&mut self, fd: i32, buf: u64, nbytes: u32, off: u64, buf_index: u16)
        ensures
            final(self).index == old(self).index,
            (SQEntry { buf_index: 0, ..*final(self) }).is_rw(IORING_OP_WRITE_FIXED, fd, buf, nbytes, off),
            final(self).buf_index == buf_index,
    {
        self.prep_rw(IORING_OP_WRITE_FIXED, fd, buf, nbytes, off);
        self.buf_index = buf_index;
    }

    /// Where each field stands in the 64-byte record; the index union's
    /// padding after `buf_index` is zero.
    pub open spec fn stored_in(&self, b: Seq<u8>) -> bool {
        &&& b.len() == SQE_SIZE
        &&& b[0] == self.opcode
        &&& b[1] == self.flags
        &&& le_u16(b, 2) == self.ioprio
        &&& le_u32(b, 4) == self.fd as u32
        &&& le_u64(b, 8) == self.off
        &&& le_u64(b, 16) == self.addr
        &&& le_u32(b, 24) == self.len
        &&& le_u32(b, 28) == self.op_flags
        &&& le_u64(b, 32) == self.user_data
        &&& le_u16(b, 40) == self.buf_index
        &&& zero_bytes(b, 42, 22)
    }

    /// The record as it is copied into slot `index` of the entry pool.
    pub fn encode(&self) -> (b: Vec<u8>)
        ensures
            self.stored_in(b@),
    {
        let mut b = zeroed(SQE_SIZE);
        b.set(0, self.opcode);
        b.set(1, self.flags);
        put_u16(&mut b, 2, self.ioprio);
        put_u32(&mut b, 4, self.fd as u32);
        put_u64(&mut b, 8, self.off);
        put_u64(&mut b, 16, self.addr);
        put_u32(&mut b, 24, self.len);
        put_u32(&mut b, 28, self.op_flags);
        put_u64(&mut b, 32, self.user_data);
        put_u16(&mut b, 40, self.buf_index);
        b
    }
}

} // verus!
