use crate::flags::{FeatureFlags, SetupFlags};
use crate::io_uring::{ring_of, IoUring};
use crate::submit_queue::SubmitQueue;
use crate::mmap::wrap_add;
use crate::params::IoUringParams;
use vstd::prelude::*;

verus! {

/// Bytes to map for the two rings and the submission entries.
#[derive(Clone, Copy, Debug, PartialEq, Eq, Structural)]
pub struct RingSizes {
    pub sq_ring_sz: usize,
    pub cq_ring_sz: usize,
    pub sqes_sz: usize,
}

/// Bytes of one completion entry for setup flags `flags`.
pub open spec fn cqe_len(flags: SetupFlags) -> int {
    if flags.has(SetupFlags::CQE32) {
        32
    } else {
        16
    }
}

/// Bytes of one submission entry for setup flags `flags`.
pub open spec fn sqe_len(flags: SetupFlags) -> int {
    if flags.has(SetupFlags::SQE128) {
        128
    } else {
        64
    }
}

/// What each mapping spans for the kernel's answer `p`: the submission ring
/// up to the end of its index array, the completion ring up to the end of
/// its entries, both the larger of the two when one mapping holds both
/// rings, and the submission entries.
pub open spec fn ring_sizes_of(p: IoUringParams) -> RingSizes {
    let sq = p.sq_off.array + p.sq_entries * 4;
    let cq = p.cq_off.cqes + p.cq_entries * cqe_len(p.flags);
    let single = if cq > sq { cq } else { sq };
    RingSizes {
        sq_ring_sz: (if p.features.has(FeatureFlags::SINGLE_MMAP) { single } else { sq }) as usize,
        cq_ring_sz: (if p.features.has(FeatureFlags::SINGLE_MMAP) { single } else { cq }) as usize,
        sqes_sz: (sqe_len(p.flags) * p.sq_entries) as usize,
    }
}

/// The sizes of the mappings that set up a ring for the kernel's answer `p`.
pub fn io_uring_mmap_sizes(p: &IoUringParams) -> (r: RingSizes)
    requires
        p.sq_off.array + p.sq_entries * 4 <= usize::MAX,
        p.cq_off.cqes + p.cq_entries * cqe_len(p.flags) <= usize::MAX,
        sqe_len(p.flags) * p.sq_entries <= usize::MAX,
    ensures
        r == ring_sizes_of(*p),
{
    let mut size: usize = 16;
    if p.flags.contains(SetupFlags::CQE32) {
        size = size + 16;
    }
    let mut sq_ring_sz = p.sq_off.array as usize + p.sq_entries as usize * 4;
    let mut cq_ring_sz = p.cq_off.cqes as usize + p.cq_entries as usize * size;
    if p.features.contains(FeatureFlags::SINGLE_MMAP) {
        if cq_ring_sz > sq_ring_sz {
            sq_ring_sz = cq_ring_sz;
        }
        cq_ring_sz = sq_ring_sz;
    }
    let mut sqe_size: usize = 64;
    if p.flags.contains(SetupFlags::SQE128) {
        sqe_size = sqe_size + 64;
    }
    RingSizes { sq_ring_sz, cq_ring_sz, sqes_sz: sqe_size * p.sq_entries as usize }
}

/// Which ring mappings to unmap, given where each lies and how long it is
/// (a null completion mapping is at address 0): the submission ring when it
/// is not empty, the completion ring when it is mapped, not empty, and not
/// the submission ring's own mapping.
pub fn io_uring_unmap_rings(sq_ring_ptr: usize, sq_ring_sz: usize, cq_ring_ptr: usize, cq_ring_sz: usize) -> (r: (
    bool,
    bool,
))
    ensures
        r.0 == (sq_ring_sz != 0),
        r.1 == (cq_ring_ptr != 0 && cq_ring_sz != 0 && cq_ring_ptr != sq_ring_ptr),
{
    (sq_ring_sz != 0, cq_ring_ptr != 0 && cq_ring_sz != 0 && cq_ring_ptr != sq_ring_ptr)
}

/// Bytes of the submission entries to unmap when a ring of `ring_entries`
/// entries set up with `flags` is dropped.
pub fn sqes_unmap_size(flags: SetupFlags, ring_entries: u32) -> (r: usize)
    requires
        sqe_len(flags) * ring_entries <= usize::MAX,
    ensures
        r == sqe_len(flags) * ring_entries,
{
    let mut sqe_size: usize = 64;
    if flags.contains(SetupFlags::SQE128) {
        sqe_size = sqe_size + 64;
    }
    sqe_size * ring_entries as usize
}

/// Where the kernel's fields of the two rings lie in memory.
#[derive(Clone, Copy, Debug, PartialEq, Eq, Structural)]
pub struct RingPointers {
    pub sq_khead: usize,
    pub sq_ktail: usize,
    pub sq_kflags: usize,
    pub sq_kdropped: usize,
    pub sq_array: usize,
    pub cq_khead: usize,
    pub cq_ktail: usize,
    pub cq_koverflow: usize,
    pub cqes: usize,
    /// Only rings whose kernel reports a flags field have one.
    pub cq_kflags: Option<usize>,
}

/// Where each of the kernel's fields lies, for the rings mapped at
/// `sq_ring_ptr` and `cq_ring_ptr` and the offsets of the kernel's answer
/// `p`: each field is its offset past the start of its ring (wrapping), and
/// the completion flags exist only when their offset is not zero.
pub fn io_uring_setup_ring_pointers(p: &IoUringParams, sq_ring_ptr: usize, cq_ring_ptr: usize) -> (r: RingPointers)
    ensures
        r.sq_khead == wrap_add(sq_ring_ptr, p.sq_off.head as usize),
        r.sq_ktail == wrap_add(sq_ring_ptr, p.sq_off.tail as usize),
        r.sq_kflags == wrap_add(sq_ring_ptr, p.sq_off.flags as usize),
        r.sq_kdropped == wrap_add(sq_ring_ptr, p.sq_off.dropped as usize),
        r.sq_array == wrap_add(sq_ring_ptr, p.sq_off.array as usize),
        r.cq_khead == wrap_add(cq_ring_ptr, p.cq_off.head as usize),
        r.cq_ktail == wrap_add(cq_ring_ptr, p.cq_off.tail as usize),
        r.cq_koverflow == wrap_add(cq_ring_ptr, p.cq_off.overflow as usize),
        r.cqes == wrap_add(cq_ring_ptr, p.cq_off.cqes as usize),
        r.cq_kflags == (if p.cq_off.flags != 0 {
            Some(wrap_add(cq_ring_ptr, p.cq_off.flags as usize) as usize)
        } else {
            None::<usize>
        }),
{
    let cq_kflags = if p.cq_off.flags != 0 {
        Some(cq_ring_ptr.wrapping_add(p.cq_off.flags as usize))
    } else {
        None
    };
    RingPointers {
        sq_khead: sq_ring_ptr.wrapping_add(p.sq_off.head as usize),
        sq_ktail: sq_ring_ptr.wrapping_add(p.sq_off.tail as usize),
        sq_kflags: sq_ring_ptr.wrapping_add(p.sq_off.flags as usize),
        sq_kdropped: sq_ring_ptr.wrapping_add(p.sq_off.dropped as usize),
        sq_array: sq_ring_ptr.wrapping_add(p.sq_off.array as usize),
        cq_khead: cq_ring_ptr.wrapping_add(p.cq_off.head as usize),
        cq_ktail: cq_ring_ptr.wrapping_add(p.cq_off.tail as usize),
        cq_koverflow: cq_ring_ptr.wrapping_add(p.cq_off.overflow as usize),
        cqes: cq_ring_ptr.wrapping_add(p.cq_off.cqes as usize),
        cq_kflags,
    }
}

/// What setting up a ring through its mappings yields once the kernel has
/// answered `p` on `ring_fd` and the rings are mapped: the ring, with the
/// kernel's flags and features and the masks and entry counts read from its
/// rings, and the index array to write, in which slot `i` holds `i`.
/// Any entry size the kernel accepted is taken.
pub fn queue_init_ring(
    ring_fd: i32,
    p: &IoUringParams,
    sq_ring_mask: u32,
    sq_ring_entries: u32,
    cq_ring_mask: u32,
    cq_ring_entries: u32,
) -> (r: (IoUring, Vec<u32>))
    ensures
        r.0 == ring_of(ring_fd, *p, sq_ring_mask, sq_ring_entries, cq_ring_mask, cq_ring_entries),
        r.0.flags == p.flags,
        r.0.features == p.features,
        r.0.sq.ring_mask == sq_ring_mask,
        r.0.sq.ring_entries == sq_ring_entries,
        r.0.cq.ring_mask == cq_ring_mask,
        r.0.cq.ring_entries == cq_ring_entries,
        r.1@.len() == sq_ring_entries,
        forall|i: int| 0 <= i < sq_ring_entries ==> #[trigger] r.1@[i] == i,
{
    let array = SubmitQueue::initial_array(sq_ring_entries);
    let ring = IoUring::from_rings(ring_fd, p, sq_ring_mask, sq_ring_entries, cq_ring_mask, cq_ring_entries);
    (ring, array)
}

} // verus!
