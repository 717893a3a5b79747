//! The three shared regions of a ring: how long each is, where it is mapped
//! from, where its cells stand, and in which order regions are mapped and
//! released.
use vstd::prelude::*;
use crate::abi::{
    CqRingOffsets, IORING_OFF_CQ_RING, IORING_OFF_SQES, IORING_OFF_SQ_RING, Params, SqRingOffsets,
    CQE_SIZE, SQE_SIZE,
};

verus! {

/// One of the regions shared with the kernel.
#[derive(Clone, Copy, Debug, PartialEq, Eq, Structural)]
pub enum Region {
    /// The submission ring: its cells and the `array` of entry indices.
    SqRing,
    /// The pool of submission entries.
    Sqes,
    /// The completion ring: its cells and the completion records.
    CqRing,
}

/// Why a ring could not be set up from what the kernel reported.
#[derive(Clone, Copy, Debug, PartialEq, Eq, Structural)]
pub enum SetupError {
    /// A setup flag this library does not know.
    UnknownFlags,
    /// A region length does not fit in `usize`.
    SizeOverflow,
    /// A cell lies outside its region or is misaligned.
    BadOffset,
    /// The ring size or mask found in the mapped ring is not the one set up.
    BadGeometry,
}

/// Length of the submission ring region: the cells, then one `u32` of
/// `array` per entry.
pub open spec fn sq_ring_len(p: Params) -> int {
    p.sq_off.array + p.sq_entries * 4
}

/// Length of the entry pool region.
pub open spec fn sqes_len(p: Params) -> int {
    p.sq_entries * SQE_SIZE
}

/// Length of the completion ring region: the cells, then the completion
/// records.
pub open spec fn cq_ring_len(p: Params) -> int {
    p.cq_off.cqes + p.cq_entries * CQE_SIZE
}

pub open spec fn sizes_fit(p: Params) -> bool {
    &&& sq_ring_len(p) <= usize::MAX
    &&& sqes_len(p) <= usize::MAX
    &&& cq_ring_len(p) <= usize::MAX
}

/// A 32-bit cell at `off` lies aligned inside a region of `len` bytes.
pub open spec fn cell_fits(off: u32, len: int) -> bool {
    &&& off % 4 == 0
    &&& off + 4 <= len
}

/// Every cell the kernel placed lies aligned inside its region.
pub open spec fn offsets_fit(p: Params) -> bool {
    &&& cell_fits(p.sq_off.head, sq_ring_len(p))
    &&& cell_fits(p.sq_off.tail, sq_ring_len(p))
    &&& cell_fits(p.sq_off.ring_mask, sq_ring_len(p))
    &&& cell_fits(p.sq_off.ring_entries, sq_ring_len(p))
    &&& cell_fits(p.sq_off.flags, sq_ring_len(p))
    &&& cell_fits(p.sq_off.dropped, sq_ring_len(p))
    &&& p.sq_off.array % 4 == 0
    &&& cell_fits(p.cq_off.head, cq_ring_len(p))
    &&& cell_fits(p.cq_off.tail, cq_ring_len(p))
    &&& cell_fits(p.cq_off.ring_mask, cq_ring_len(p))
    &&& cell_fits(p.cq_off.ring_entries, cq_ring_len(p))
    &&& cell_fits(p.cq_off.overflow, cq_ring_len(p))
    &&& p.cq_off.cqes % 8 == 0
}

/// The layout the kernel describes in `p`, or why it cannot be used.
pub open spec fn spec_layout(p: Params) -> Result<RingLayout, SetupError> {
    if !sizes_fit(p) {
        Err(SetupError::SizeOverflow)
    } else if !offsets_fit(p) {
        Err(SetupError::BadOffset)
    } else {
        Ok(
            RingLayout {
                sq_entries: p.sq_entries,
                cq_entries: p.cq_entries,
                sq_ring_size: sq_ring_len(p) as usize,
                sqes_size: sqes_len(p) as usize,
                cq_ring_size: cq_ring_len(p) as usize,
                sq_off: p.sq_off,
                cq_off: p.cq_off,
            },
        )
    }
}

/// Lengths and cell offsets of the three regions of one ring.
#[derive(Clone, Copy, Debug, PartialEq, Eq)]
pub struct RingLayout {
    pub sq_entries: u32,
    pub cq_entries: u32,
    pub sq_ring_size: usize,
    pub sqes_size: usize,
    pub cq_ring_size: usize,
    pub sq_off: SqRingOffsets,
    pub cq_off: CqRingOffsets,
}

/// The offset at which `r` is mapped from the ring's fd.
pub open spec fn spec_mmap_offset(r: Region) -> i64 {
    match r {
        Region::SqRing => IORING_OFF_SQ_RING,
        Region::Sqes => IORING_OFF_SQES,
        Region::CqRing => IORING_OFF_CQ_RING,
    }
}

/// The offset at which `r` is mapped from the ring's fd.
pub fn mmap_offset(r: Region) -> (off: i64)
    ensures
        off == spec_mmap_offset(r),
{
    match r {
        Region::SqRing => IORING_OFF_SQ_RING,
        Region::Sqes => IORING_OFF_SQES,
        Region::CqRing => IORING_OFF_CQ_RING,
    }
}

/// The order in which the regions are mapped.
pub open spec fn spec_map_order() -> Seq<Region> {
    seq![Region::SqRing, Region::Sqes, Region::CqRing]
}

/// The order in which the regions are mapped.
pub fn map_order() -> (r: Vec<Region>)
    ensures
        r@ == spec_map_order(),
{
    let r = vec![Region::SqRing, Region::Sqes, Region::CqRing];
    assert(r@ =~= spec_map_order());
    r
}

/// The regions mapped before `failed` in `spec_map_order`, last mapped
/// first: what to release when mapping `failed` fails.
pub fn unwind_after(failed: Region) -> (r: Vec<Region>)
    ensures
        r@ == spec_map_order().take(spec_map_order().index_of(failed)).reverse(),
{
    let r = match failed {
        Region::SqRing => vec![],
        Region::Sqes => vec![Region::SqRing],
        Region::CqRing => vec![Region::Sqes, Region::SqRing],
    };
    proof {
        let o = spec_map_order();
        assert(o[0] == Region::SqRing && o[1] == Region::Sqes && o[2] == Region::CqRing);
        o.index_of_first_ensures(failed);
        assert(o.index_of(failed) == match failed {
            Region::SqRing => 0int,
            Region::Sqes => 1int,
            Region::CqRing => 2int,
        });
        assert(r@ =~= o.take(o.index_of(failed)).reverse());
    }
    r
}

/// The order in which a ring's regions are released at teardown: the
/// reverse of the order they were mapped in.
pub fn teardown_order() -> (r: Vec<Region>)
    ensures
        r@ == spec_map_order().reverse(),
{
    let r = vec![Region::CqRing, Region::Sqes, Region::SqRing];
    assert(r@ =~= spec_map_order().reverse());
    r
}

impl RingLayout {
    /// The layout the kernel describes in the setup parameters, or why it
    /// cannot be used: a region too long for `usize`, or a cell outside its
    /// region or misaligned.
    pub fn from_params(p: &Params) -> (r: Result<RingLayout, SetupError>)
        ensures
            r == spec_layout(*p),
    {
        let sq_ring_size = match (p.sq_entries as usize).checked_mul(4) {
            Some(a) => match (p.sq_off.array as usize).checked_add(a) {
                Some(s) => s,
                None => return Err(SetupError::SizeOverflow),
            },
            None => return Err(SetupError::SizeOverflow),
        };
        let sqes_size = match (p.sq_entries as usize).checked_mul(SQE_SIZE) {
            Some(s) => s,
            None => return Err(SetupError::SizeOverflow),
        };
        let cq_ring_size = match (p.cq_entries as usize).checked_mul(CQE_SIZE) {
            Some(a) => match (p.cq_off.cqes as usize).checked_add(a) {
                Some(s) => s,
                None => return Err(SetupError::SizeOverflow),
            },
            None => return Err(SetupError::SizeOverflow),
        };
        let s = &p.sq_off;
        let c = &p.cq_off;
        let fits = cell_fits_in(s.head, sq_ring_size) && cell_fits_in(s.tail, sq_ring_size)
            && cell_fits_in(s.ring_mask, sq_ring_size) && cell_fits_in(s.ring_entries, sq_ring_size)
            && cell_fits_in(s.flags, sq_ring_size) && cell_fits_in(s.dropped, sq_ring_size)
            && s.array % 4 == 0 && cell_fits_in(c.head, cq_ring_size) && cell_fits_in(
            c.tail,
            cq_ring_size,
        ) && cell_fits_in(c.ring_mask, cq_ring_size) && cell_fits_in(c.ring_entries, cq_ring_size)
            && cell_fits_in(c.overflow, cq_ring_size) && c.cqes % 8 == 0;
        if !fits {
            return Err(SetupError::BadOffset);
        }
        Ok(RingLayout {
            sq_entries: p.sq_entries,
            cq_entries: p.cq_entries,
            sq_ring_size,
            sqes_size,
            cq_ring_size,
            sq_off: p.sq_off,
            cq_off: p.cq_off,
        })
    }

    /// The length of region `r`.
    pub fn region_len(&self, r: Region) -> (len: usize)
        ensures
            len == match r {
                Region::SqRing => self.sq_ring_size,
                Region::Sqes => self.sqes_size,
                Region::CqRing => self.cq_ring_size,
            },
    {
        match r {
            Region::SqRing => self.sq_ring_size,
            Region::Sqes => self.sqes_size,
            Region::CqRing => self.cq_ring_size,
        }
    }
}

fn cell_fits_in(off: u32, len: usize) -> (r: bool)
    ensures
        r == cell_fits(off, len as int),
{
    off % 4 == 0 && off as usize <= len && len - off as usize >= 4
}

} // verus!
