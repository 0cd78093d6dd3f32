use crate::constants::{CQE_SIZE, SQE_SIZE, SQ_ARRAY_SLOT_SIZE};
use crate::error::{MemOrder, RingError};
use crate::flags::{EnterFlags, FeatureFlags, SQFlags, SetupFlags};
use crate::params::IoUringParams;
use crate::ring_math::{lemma_slots_distinct, ring_shape};
use crate::sqe::IoUringSqe;
use vstd::prelude::*;

verus! {

/// The user's side of a submission ring.
///
/// `sqe_tail` counts the entries handed out, `sqe_head` the entries
/// published to the kernel; the kernel's own head (how many it has
/// consumed) lives in memory shared with it and is passed in where needed.
/// Positions grow without wrapping; a position's slot is `position & ring_mask`.
#[derive(Clone, Copy, Debug)]
pub struct SubmitQueue {
    pub flags: SetupFlags,
    pub sqe_head: u32,
    pub sqe_tail: u32,
    pub ring_mask: u32,
    pub ring_entries: u32,
}

/// Bytes of the submission ring mapping for the kernel's answer `p`: the
/// index array ends it, unless a single mapping also holds a longer
/// completion ring.
pub open spec fn sq_ring_len(p: IoUringParams) -> int {
    let sq = p.sq_off.array + p.sq_entries * 4;
    let cq = p.cq_off.cqes + p.cq_entries * 16;
    if p.features.has(FeatureFlags::SINGLE_MMAP) && cq > sq {
        cq
    } else {
        sq
    }
}

impl SubmitQueue {
    /// The slot that position `pos` occupies.
    pub open spec fn slot(self, pos: u32) -> usize {
        (pos & self.ring_mask) as usize
    }

    /// Whether one more entry fits while the kernel has consumed up to `khead`.
    pub open spec fn has_room(self, khead: u32) -> bool {
        self.sqe_tail + 1 - khead <= self.ring_entries
    }

    /// The queue after one more slot is handed out.
    pub open spec fn after_get(self) -> SubmitQueue {
        SubmitQueue { sqe_tail: (self.sqe_tail + 1) as u32, ..self }
    }

    /// The queue after every handed-out entry is published.
    pub open spec fn after_flush(self) -> SubmitQueue {
        SubmitQueue { sqe_head: self.sqe_tail, ..self }
    }

    /// The tail that a flush stores into the kernel's tail, if any.
    pub open spec fn published_tail(self) -> Option<u32> {
        if self.sqe_head != self.sqe_tail {
            Some(self.sqe_tail)
        } else {
            None
        }
    }

    /// A queue for the kernel's answer `p`, with the ring mask and entry
    /// count that the kernel wrote into the ring, before any entry is handed out.
    pub fn new(p: &IoUringParams, ring_mask: u32, ring_entries: u32) -> (q: SubmitQueue)
        requires
            !p.flags.has(SetupFlags::SQE128),
        ensures
            q.flags == p.flags,
            q.sqe_head == 0,
            q.sqe_tail == 0,
            q.ring_mask == ring_mask,
            q.ring_entries == ring_entries,
    {
        SubmitQueue { flags: p.flags, sqe_head: 0, sqe_tail: 0, ring_mask, ring_entries }
    }

    /// Bytes to map for the submission ring.
    pub fn ring_size(p: &IoUringParams) -> (r: usize)
        requires
            p.sq_off.array + p.sq_entries * 4 <= usize::MAX,
            p.features.has(FeatureFlags::SINGLE_MMAP) ==> p.cq_off.cqes + p.cq_entries * 16 <= usize::MAX,
        ensures
            r == sq_ring_len(*p),
    {
        let mut sq_ring_sz = p.sq_off.array as usize + p.sq_entries as usize * SQ_ARRAY_SLOT_SIZE;
        if p.features.contains(FeatureFlags::SINGLE_MMAP) {
            let cq_ring_sz = p.cq_off.cqes as usize + p.cq_entries as usize * CQE_SIZE;
            if cq_ring_sz > sq_ring_sz {
                sq_ring_sz = cq_ring_sz;
            }
        }
        sq_ring_sz
    }

    /// Bytes to map for the submission entries.
    pub fn sqes_size(p: &IoUringParams) -> (r: usize)
        requires
            p.sq_entries * 64 <= usize::MAX,
        ensures
            r == p.sq_entries * 64,
    {
        p.sq_entries as usize * SQE_SIZE
    }

    /// The initial contents of the index array: slot `i` holds `i`.
    pub fn initial_array(ring_entries: u32) -> (v: Vec<u32>)
        ensures
            v@.len() == ring_entries,
            forall|i: int| 0 <= i < ring_entries ==> #[trigger] v@[i] == i,
    {
        let mut v: Vec<u32> = Vec::new();
        let mut index: u32 = 0;
        while index < ring_entries
            invariant
                index <= ring_entries,
                v@.len() == index,
                forall|i: int| 0 <= i < index ==> #[trigger] v@[i] == i,
            decreases ring_entries - index,
        {
            v.push(index);
            index = index + 1;
        }
        v
    }

    /// How the kernel's head is loaded: with acquire ordering when a kernel
    /// thread polls the ring, relaxed otherwise.
    pub fn head_order(&self) -> (r: MemOrder)
        ensures
            r == (if self.flags.has(SetupFlags::SQPOLL) { MemOrder::Acquire } else { MemOrder::Relaxed }),
    {
        if self.flags.contains(SetupFlags::SQPOLL) {
            MemOrder::Acquire
        } else {
            MemOrder::Relaxed
        }
    }

    /// How the published tail is stored: with release ordering when a kernel
    /// thread polls the ring, relaxed otherwise.
    pub fn tail_order(&self) -> (r: MemOrder)
        ensures
            r == (if self.flags.has(SetupFlags::SQPOLL) { MemOrder::Release } else { MemOrder::Relaxed }),
    {
        if self.flags.contains(SetupFlags::SQPOLL) {
            MemOrder::Release
        } else {
            MemOrder::Relaxed
        }
    }

    /// How `IoUring`'s submission ring loads the kernel's head: relaxed when a
    /// kernel thread polls the ring, with acquire ordering otherwise.
    pub fn polled_relaxed_head_order(&self) -> (r: MemOrder)
        ensures
            r == (if self.flags.has(SetupFlags::SQPOLL) { MemOrder::Relaxed } else { MemOrder::Acquire }),
    {
        if self.flags.contains(SetupFlags::SQPOLL) {
            MemOrder::Relaxed
        } else {
            MemOrder::Acquire
        }
    }

    /// How `IoUring`'s submission ring stores the published tail: relaxed
    /// when a kernel thread polls the ring, with release ordering otherwise.
    pub fn polled_relaxed_tail_order(&self) -> (r: MemOrder)
        ensures
            r == (if self.flags.has(SetupFlags::SQPOLL) { MemOrder::Relaxed } else { MemOrder::Release }),
    {
        if self.flags.contains(SetupFlags::SQPOLL) {
            MemOrder::Relaxed
        } else {
            MemOrder::Release
        }
    }

    /// Hands out the next submission slot, given the kernel's head `khead`.
    /// It succeeds exactly when the entries past `khead`, this one included,
    /// fit in the ring; then it returns the slot of the current tail and
    /// advances the tail by one. Otherwise nothing changes.
    pub fn get_sqe(&mut self, khead: u32) -> (r: Result<usize, RingError>)
        requires
            old(self).sqe_tail < u32::MAX,
            khead <= old(self).sqe_tail + 1,
        ensures
            old(self).has_room(khead) ==> {
                &&& r == Ok::<usize, RingError>(old(self).slot(old(self).sqe_tail))
                &&& *final(self) == old(self).after_get()
            },
            !old(self).has_room(khead) ==> {
                &&& r == Err::<usize, RingError>(RingError::SqFull)
                &&& *final(self) == *old(self)
            },
    {
        let next = self.sqe_tail + 1;
        if next - khead <= self.ring_entries {
            let index = (self.sqe_tail & self.ring_mask) as usize;
            self.sqe_tail = next;
            Ok(index)
        } else {
            Err(RingError::SqFull)
        }
    }

    /// Publishes every handed-out entry: the published head catches up with
    /// the tail. Returns the tail to store into the kernel's tail, or `None`
    /// when nothing was left to publish.
    pub fn flush(&mut self) -> (r: Option<u32>)
        ensures
            *final(self) == old(self).after_flush(),
            r == old(self).published_tail(),
    {
        let tail = self.sqe_tail;
        if self.sqe_head != tail {
            self.sqe_head = tail;
            Some(tail)
        } else {
            None
        }
    }

    /// Entries handed out that the kernel, at head `khead`, has not consumed:
    /// what a flush reports.
    pub fn in_flight(&self, khead: u32) -> (r: u32)
        requires
            khead <= self.sqe_tail,
        ensures
            r == self.sqe_tail - khead,
    {
        self.sqe_tail - khead
    }

    /// Whether `submitted` entries need an `io_uring_enter` call, given the
    /// ring's flags `kflags`. Without a polling kernel thread, any entry
    /// does; with one, only when the thread asks to be woken, and then the
    /// wake-up flag is added to `flags`.
    pub fn needs_enter(&self, submitted: u32, kflags: SQFlags, flags: &mut EnterFlags) -> (r: bool)
        ensures
            r == (submitted != 0 && (!self.flags.has(SetupFlags::SQPOLL) || kflags.has(SQFlags::NEED_WAKEUP))),
            final(flags).bits == (if submitted != 0 && self.flags.has(SetupFlags::SQPOLL)
                && kflags.has(SQFlags::NEED_WAKEUP) {
                old(flags).bits | EnterFlags::SQ_WAKEUP
            } else {
                old(flags).bits
            }),
    {
        if submitted == 0 {
            return false;
        }
        if !self.flags.contains(SetupFlags::SQPOLL) {
            return true;
        }
        if kflags.contains(SQFlags::NEED_WAKEUP) {
            flags.insert(EnterFlags::SQ_WAKEUP);
            true
        } else {
            false
        }
    }

    /// Hands out the next slot, like `get_sqe`, filled with a no-op tagged
    /// `user_data`: returns the slot and the entry to write there.
    pub fn nop(&mut self, khead: u32, user_data: u64) -> (r: Result<(usize, IoUringSqe), RingError>)
        requires
            old(self).sqe_tail < u32::MAX,
            khead <= old(self).sqe_tail + 1,
        ensures
            old(self).has_room(khead) ==> {
                &&& r == Ok::<(usize, IoUringSqe), RingError>((old(self).slot(old(self).sqe_tail), IoUringSqe::nop_spec(user_data)))
                &&& *final(self) == old(self).after_get()
            },
            !old(self).has_room(khead) ==> {
                &&& r == Err::<(usize, IoUringSqe), RingError>(RingError::SqFull)
                &&& *final(self) == *old(self)
            },
    {
        let index = self.get_sqe(khead)?;
        Ok((index, IoUringSqe::nop(user_data)))
    }
}

/// A slot handed out is never one that the kernel may still read: when the
/// ring has room, the slot of the tail differs from the slot of every entry
/// the kernel has not consumed yet.
pub proof fn lemma_get_sqe_fresh_slot(q: SubmitQueue, khead: u32)
    requires
        ring_shape(q.ring_entries, q.ring_mask),
        khead <= q.sqe_tail,
        q.has_room(khead),
    ensures
        forall|pos: u32| khead <= pos < q.sqe_tail ==> #[trigger] q.slot(pos) != q.slot(q.sqe_tail),
{
    assert forall|pos: u32| khead <= pos < q.sqe_tail implies #[trigger] q.slot(pos) != q.slot(q.sqe_tail) by {
        lemma_slots_distinct(pos, q.sqe_tail, q.ring_entries, q.ring_mask);
    }
}

/// The ring never holds more entries than it has slots: when at most
/// `ring_entries` entries are past the kernel's head, handing out a slot
/// keeps it so, and a refusal comes exactly when all slots are taken.
pub proof fn lemma_get_sqe_bounded(q: SubmitQueue, khead: u32)
    requires
        khead <= q.sqe_tail,
        q.sqe_tail < u32::MAX,
        q.sqe_tail - khead <= q.ring_entries,
    ensures
        q.has_room(khead) ==> q.after_get().sqe_tail - khead <= q.ring_entries,
        !q.has_room(khead) <==> q.sqe_tail - khead == q.ring_entries,
{
}

/// Each slot handed out adds one entry to what the next flush reports, and
/// that flush publishes the new tail.
pub proof fn lemma_get_sqe_counts_once(q: SubmitQueue, khead: u32)
    requires
        q.sqe_head <= q.sqe_tail,
        khead <= q.sqe_tail,
        q.sqe_tail < u32::MAX,
    ensures
        q.after_get().after_flush().sqe_tail - khead == (q.after_flush().sqe_tail - khead) + 1,
        q.after_get().published_tail() == Some((q.sqe_tail + 1) as u32),
{
}

/// A flush publishes everything: right after it, a second flush has nothing
/// left to store and leaves the queue as it is.
pub proof fn lemma_flush_idempotent(q: SubmitQueue)
    ensures
        q.after_flush().published_tail() == None::<u32>,
        q.after_flush().after_flush() == q.after_flush(),
{
}

/// Every operation keeps what was published within what was handed out:
/// handing out a slot and flushing both keep the published head at or
/// below the tail.
pub proof fn lemma_head_stays_below_tail(q: SubmitQueue)
    requires
        q.sqe_head <= q.sqe_tail,
        q.sqe_tail < u32::MAX,
    ensures
        q.after_get().sqe_head <= q.after_get().sqe_tail,
        q.after_flush().sqe_head <= q.after_flush().sqe_tail,
{
}

} // verus!
