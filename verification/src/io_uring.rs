use crate::complete_queue::{CompleteQueue, EnterArgs};
use crate::entry::{Entry, OpType};
use crate::error::RingError;
use crate::flags::{EnterFlags, FeatureFlags, SQFlags, SetupFlags};
use crate::params::IoUringParams;
use crate::recv_buffer::IoUringBufReg;
use crate::submit_queue::SubmitQueue;
use crate::ring_math::ring_shape;
use crate::constants::OpCode;
use crate::sqe::{accept_sqe, prepared_sqe, read_sqe, recv_sqe, write_sqe, IoUringSqe};
use vstd::prelude::*;

verus! {

/// A ring: the file the kernel handed out, the user's sides of its two
/// queues, and the flags and features it was set up with.
#[derive(Clone, Copy, Debug)]
pub struct IoUring {
    pub ring_fd: i32,
    pub sq: SubmitQueue,
    pub cq: CompleteQueue,
    pub flags: SetupFlags,
    pub features: FeatureFlags,
}

/// Whether the completion side, given the submission ring's flags `kflags`,
/// has entries the kernel must be asked to flush.
pub open spec fn cq_flush_wanted(kflags: SQFlags) -> bool {
    kflags.meets((SQFlags::CQ_OVERFLOW | SQFlags::TASKRUN) as u32)
}

/// Whether completions need an `io_uring_enter` call: the ring is polled for
/// I/O, or completions wait to be flushed.
pub open spec fn cq_enter_wanted(flags: SetupFlags, kflags: SQFlags) -> bool {
    flags.has(SetupFlags::IOPOLL) || cq_flush_wanted(kflags)
}

/// The `io_uring_enter` call that `submit` makes, if any: for `submitted`
/// entries, waiting for `wait_nr` completions, given the ring's flags.
pub open spec fn submit_call(ring: IoUring, submitted: u32, wait_nr: u32, kflags: SQFlags) -> Option<
    EnterArgs,
> {
    let cq = wait_nr != 0 || cq_enter_wanted(ring.flags, kflags);
    let sq_poll = ring.sq.flags.has(SetupFlags::SQPOLL);
    let wake = submitted != 0 && sq_poll && kflags.has(SQFlags::NEED_WAKEUP);
    let sq = submitted != 0 && (!sq_poll || kflags.has(SQFlags::NEED_WAKEUP));
    if sq || cq {
        Some(
            EnterArgs {
                to_submit: submitted,
                min_complete: wait_nr,
                flags: EnterFlags {
                    bits: ((if wake {
                        EnterFlags::SQ_WAKEUP
                    } else {
                        0u32
                    }) + (if cq {
                        EnterFlags::GETEVENTS
                    } else {
                        0u32
                    })) as u32,
                },
            },
        )
    } else {
        None
    }
}

/// The ring on file `ring_fd` set up with the kernel's answer `p`, with the
/// masks and entry counts the kernel wrote into its two rings, before any
/// entry is handed out.
pub open spec fn ring_of(
    ring_fd: i32,
    p: IoUringParams,
    sq_ring_mask: u32,
    sq_ring_entries: u32,
    cq_ring_mask: u32,
    cq_ring_entries: u32,
) -> IoUring {
    IoUring {
        ring_fd,
        sq: SubmitQueue {
            flags: p.flags,
            sqe_head: 0,
            sqe_tail: 0,
            ring_mask: sq_ring_mask,
            ring_entries: sq_ring_entries,
        },
        cq: CompleteQueue { ring_mask: cq_ring_mask, ring_entries: cq_ring_entries },
        flags: p.flags,
        features: p.features,
    }
}

/// The setup flags that `io_uring_setup` is refused before it is tried:
/// an fd reachable only through registration needs rings that are not mapped.
pub open spec fn setup_refused(flags: SetupFlags) -> bool {
    flags.has(SetupFlags::REGISTERED_FD_ONLY) && !flags.has(SetupFlags::NO_MMAP)
}

impl IoUring {
    /// Checks the setup parameters before the ring is created: asking for a
    /// registered-only fd while mapping the rings is invalid input.
    pub fn check_params(p: &IoUringParams) -> (r: Result<(), RingError>)
        requires
            !p.flags.has(SetupFlags::NO_MMAP),
        ensures
            r == (if p.flags.has(SetupFlags::REGISTERED_FD_ONLY) {
                Err::<(), RingError>(RingError::InvalidInput)
            } else {
                Ok::<(), RingError>(())
            }),
    {
        if p.flags.contains(SetupFlags::REGISTERED_FD_ONLY) && !p.flags.contains(SetupFlags::NO_MMAP) {
            return Err(RingError::InvalidInput);
        }
        Ok(())
    }

    /// The ring on file `ring_fd` set up with the kernel's answer `p`, with
    /// the masks and entry counts the kernel wrote into its two rings.
    pub fn new(
        ring_fd: i32,
        p: &IoUringParams,
        sq_ring_mask: u32,
        sq_ring_entries: u32,
        cq_ring_mask: u32,
        cq_ring_entries: u32,
    ) -> (r: IoUring)
        requires
            !p.flags.has(SetupFlags::SQE128),
            !p.flags.has(SetupFlags::CQE32),
        ensures
            r == ring_of(ring_fd, *p, sq_ring_mask, sq_ring_entries, cq_ring_mask, cq_ring_entries),
            r.ring_fd == ring_fd,
            r.sq.ring_mask == sq_ring_mask,
            r.sq.ring_entries == sq_ring_entries,
            r.sq.sqe_head == 0,
            r.sq.sqe_tail == 0,
            r.sq.flags == p.flags,
            r.cq.ring_mask == cq_ring_mask,
            r.cq.ring_entries == cq_ring_entries,
            r.flags == p.flags,
            r.features == p.features,
    {
        let sq = SubmitQueue::new(p, sq_ring_mask, sq_ring_entries);
        let cq = CompleteQueue::new(p, cq_ring_mask, cq_ring_entries);
        IoUring { ring_fd, sq, cq, flags: p.flags, features: p.features }
    }

    /// The ring that the mapping path of setup builds from the kernel's answer
    /// `p`, whatever entry sizes it asked for (big submission or completion
    /// entries included), with the masks and entry counts the kernel wrote
    /// into its two rings.
    pub fn from_rings(
        ring_fd: i32,
        p: &IoUringParams,
        sq_ring_mask: u32,
        sq_ring_entries: u32,
        cq_ring_mask: u32,
        cq_ring_entries: u32,
    ) -> (r: IoUring)
        ensures
            r == ring_of(ring_fd, *p, sq_ring_mask, sq_ring_entries, cq_ring_mask, cq_ring_entries),
            r.ring_fd == ring_fd,
            r.sq.ring_mask == sq_ring_mask,
            r.sq.ring_entries == sq_ring_entries,
            r.sq.sqe_head == 0,
            r.sq.sqe_tail == 0,
            r.sq.flags == p.flags,
            r.cq.ring_mask == cq_ring_mask,
            r.cq.ring_entries == cq_ring_entries,
            r.flags == p.flags,
            r.features == p.features,
    {
        let sq = SubmitQueue {
            flags: p.flags,
            sqe_head: 0,
            sqe_tail: 0,
            ring_mask: sq_ring_mask,
            ring_entries: sq_ring_entries,
        };
        let cq = CompleteQueue { ring_mask: cq_ring_mask, ring_entries: cq_ring_entries };
        IoUring { ring_fd, sq, cq, flags: p.flags, features: p.features }
    }

    /// Whether completions wait to be flushed by the kernel.
    pub fn cq_needs_flush(&self, kflags: SQFlags) -> (r: bool)
        ensures
            r == cq_flush_wanted(kflags),
    {
        kflags.intersects(SQFlags::CQ_OVERFLOW | SQFlags::TASKRUN)
    }

    /// Whether completions need an `io_uring_enter` call.
    pub fn cq_needs_enter(&self, kflags: SQFlags) -> (r: bool)
        ensures
            r == cq_enter_wanted(self.flags, kflags),
    {
        self.flags.contains(SetupFlags::IOPOLL) || self.cq_needs_flush(kflags)
    }

    /// Decides how `submitted` entries are submitted while waiting for
    /// `wait_nr` completions, given the submission ring's flags `kflags`:
    /// the `io_uring_enter` call to make, or `None` when no call is needed
    /// and all `submitted` entries count as submitted.
    /// A call is made when the submission side needs one or completions do;
    /// it asks for completions exactly when completions need the call.
    pub fn submit(&self, submitted: u32, wait_nr: u32, kflags: SQFlags) -> (r: Option<EnterArgs>)
        ensures
            r == submit_call(*self, submitted, wait_nr, kflags),
            submitted != 0 && (!self.sq.flags.has(SetupFlags::SQPOLL) || kflags.has(SQFlags::NEED_WAKEUP))
                ==> r is Some,
            wait_nr != 0 ==> r is Some,
            r matches Some(a) ==> a.to_submit == submitted && a.min_complete == wait_nr,
    {
        let cq_needs_enter = wait_nr != 0 || self.cq_needs_enter(kflags);
        let mut flags = EnterFlags::empty();
        assert(0u32 | 2u32 == 2u32) by (bit_vector);
        assert(0u32 | 1u32 == 1u32) by (bit_vector);
        assert(2u32 | 1u32 == 3u32) by (bit_vector);
        let sq_needs_enter = self.sq.needs_enter(submitted, kflags, &mut flags);
        if sq_needs_enter || cq_needs_enter {
            if cq_needs_enter {
                flags.insert(EnterFlags::GETEVENTS);
            }
            Some(EnterArgs { to_submit: submitted, min_complete: wait_nr, flags })
        } else {
            None
        }
    }

    /// Reserves a slot for a no-op on the ring's own fd, over the empty buffer
    /// at `empty_addr`, tagged `user_data`: returns the slot, a fresh entry for
    /// the request, and the request to write into the slot.
    pub fn nop(&mut self, khead: u32, empty_addr: u64, user_data: u64) -> (r: Result<(usize, Entry, IoUringSqe), RingError>)
        requires
            old(self).sq.sqe_tail < u32::MAX,
            khead <= old(self).sq.sqe_tail + 1,
        ensures
            old(self).sq.has_room(khead) ==> {
                &&& r == Ok::<(usize, Entry, IoUringSqe), RingError>((
                    old(self).sq.slot(old(self).sq.sqe_tail),
                    Entry::fresh(OpType::Nop, false),
                    prepared_sqe(OpCode::NOP, old(self).ring_fd, 0, empty_addr, 0, user_data),
                ))
                &&& *final(self) == (IoUring { sq: old(self).sq.after_get(), ..*old(self) })
            },
            r matches Ok((_, _, e)) ==> e.opcode == OpCode::NOP && e.fd == old(self).ring_fd && e.user_data == user_data,
            !old(self).sq.has_room(khead) ==> {
                &&& r == Err::<(usize, Entry, IoUringSqe), RingError>(RingError::SqFull)
                &&& *final(self) == *old(self)
            },
    {
        let index = self.sq.get_sqe(khead)?;
        let sqe = {
            let mut e = IoUringSqe::zeroed();
            e.prepare(OpCode::NOP, self.ring_fd, 0, empty_addr, 0, user_data);
            e
        };
        Ok((index, Entry::new(OpType::Nop, false), sqe))
    }

    /// Reserves a slot for a read of `buf_len` bytes at `offset` of `fd` into
    /// the buffer at `buf_addr`, tagged `user_data`: returns the slot, a fresh
    /// entry, and the request to write into the slot.
    pub fn prep_read(&mut self, khead: u32, fd: i32, offset: u64, buf_addr: u64, buf_len: usize, user_data: u64) -> (r: Result<(usize, Entry, IoUringSqe), RingError>)
        requires
            old(self).sq.sqe_tail < u32::MAX,
            khead <= old(self).sq.sqe_tail + 1,
        ensures
            old(self).sq.has_room(khead) ==> {
                &&& r == Ok::<(usize, Entry, IoUringSqe), RingError>((
                    old(self).sq.slot(old(self).sq.sqe_tail),
                    Entry::fresh(OpType::Read, false),
                    read_sqe(fd, offset, buf_addr, buf_len, user_data),
                ))
                &&& *final(self) == (IoUring { sq: old(self).sq.after_get(), ..*old(self) })
            },
            r matches Ok((_, _, e)) ==> e.opcode == OpCode::READ && e.fd == fd && e.off == offset && e.addr == buf_addr
                && e.len == buf_len as u32 && e.user_data == user_data,
            !old(self).sq.has_room(khead) ==> {
                &&& r == Err::<(usize, Entry, IoUringSqe), RingError>(RingError::SqFull)
                &&& *final(self) == *old(self)
            },
    {
        let index = self.sq.get_sqe(khead)?;
        let sqe = IoUringSqe::read(fd, offset, buf_addr, buf_len, user_data);
        Ok((index, Entry::new(OpType::Read, false), sqe))
    }

    /// Reserves a slot for a write of `buf_len` bytes from the buffer at
    /// `buf_addr` at `offset` of `fd`, tagged `user_data`: returns the slot, a
    /// fresh entry, and the request to write into the slot.
    pub fn prep_write(&mut self, khead: u32, fd: i32, offset: u64, buf_addr: u64, buf_len: usize, user_data: u64) -> (r: Result<(usize, Entry, IoUringSqe), RingError>)
        requires
            old(self).sq.sqe_tail < u32::MAX,
            khead <= old(self).sq.sqe_tail + 1,
        ensures
            old(self).sq.has_room(khead) ==> {
                &&& r == Ok::<(usize, Entry, IoUringSqe), RingError>((
                    old(self).sq.slot(old(self).sq.sqe_tail),
                    Entry::fresh(OpType::Write, false),
                    write_sqe(fd, offset, buf_addr, buf_len, user_data),
                ))
                &&& *final(self) == (IoUring { sq: old(self).sq.after_get(), ..*old(self) })
            },
            r matches Ok((_, _, e)) ==> e.opcode == OpCode::WRITE && e.fd == fd && e.off == offset && e.addr == buf_addr
                && e.len == buf_len as u32 && e.user_data == user_data,
            !old(self).sq.has_room(khead) ==> {
                &&& r == Err::<(usize, Entry, IoUringSqe), RingError>(RingError::SqFull)
                &&& *final(self) == *old(self)
            },
    {
        let index = self.sq.get_sqe(khead)?;
        let sqe = IoUringSqe::write(fd, offset, buf_addr, buf_len, user_data);
        Ok((index, Entry::new(OpType::Write, false), sqe))
    }

    /// Reserves a slot for a multishot accept on the listening socket `fd`
    /// (prepared over the empty buffer at `empty_addr`), tagged `user_data`:
    /// returns the slot, a fresh multishot entry, and the request.
    pub fn prep_accept(&mut self, khead: u32, fd: i32, empty_addr: u64, user_data: u64) -> (r: Result<(usize, Entry, IoUringSqe), RingError>)
        requires
            old(self).sq.sqe_tail < u32::MAX,
            khead <= old(self).sq.sqe_tail + 1,
        ensures
            old(self).sq.has_room(khead) ==> {
                &&& r == Ok::<(usize, Entry, IoUringSqe), RingError>((
                    old(self).sq.slot(old(self).sq.sqe_tail),
                    Entry::fresh(OpType::Accept, true),
                    accept_sqe(fd, user_data),
                ))
                &&& *final(self) == (IoUring { sq: old(self).sq.after_get(), ..*old(self) })
            },
            r matches Ok((_, _, e)) ==> e.opcode == OpCode::ACCEPT && e.fd == fd && e.user_data == user_data,
            !old(self).sq.has_room(khead) ==> {
                &&& r == Err::<(usize, Entry, IoUringSqe), RingError>(RingError::SqFull)
                &&& *final(self) == *old(self)
            },
    {
        let index = self.sq.get_sqe(khead)?;
        let sqe = IoUringSqe::accept(fd, empty_addr, user_data);
        Ok((index, Entry::new(OpType::Accept, true), sqe))
    }

    /// Reserves a slot for a multishot receive on the socket `fd` into buffers
    /// the kernel selects (prepared over the empty buffer at `empty_addr`),
    /// tagged `user_data`: returns the slot, a fresh multishot entry, and the
    /// request.
    pub fn prep_recv(&mut self, khead: u32, fd: i32, empty_addr: u64, user_data: u64) -> (r: Result<(usize, Entry, IoUringSqe), RingError>)
        requires
            old(self).sq.sqe_tail < u32::MAX,
            khead <= old(self).sq.sqe_tail + 1,
        ensures
            old(self).sq.has_room(khead) ==> {
                &&& r == Ok::<(usize, Entry, IoUringSqe), RingError>((
                    old(self).sq.slot(old(self).sq.sqe_tail),
                    Entry::fresh(OpType::Receive, true),
                    recv_sqe(fd, user_data),
                ))
                &&& *final(self) == (IoUring { sq: old(self).sq.after_get(), ..*old(self) })
            },
            r matches Ok((_, _, e)) ==> e.opcode == OpCode::RECV && e.fd == fd && e.user_data == user_data,
            !old(self).sq.has_room(khead) ==> {
                &&& r == Err::<(usize, Entry, IoUringSqe), RingError>(RingError::SqFull)
                &&& *final(self) == *old(self)
            },
    {
        let index = self.sq.get_sqe(khead)?;
        let sqe = IoUringSqe::recv(fd, empty_addr, user_data);
        Ok((index, Entry::new(OpType::Receive, true), sqe))
    }

    /// The registration of a provided-buffer ring of `entries` descriptors at
    /// `ring_addr` as buffer group `bgid`.
    pub fn setup_buffer_ring(&self, ring_addr: u64, entries: u32, bgid: u16) -> (r: IoUringBufReg)
        ensures
            r == IoUringBufReg::for_ring(ring_addr, entries, bgid),
    {
        IoUringBufReg::new(ring_addr, entries, bgid)
    }
}

/// A call that `submit` makes asks the kernel for completions exactly when
/// completions need the call, and wakes the polling thread exactly when
/// entries are submitted to a polled ring whose thread sleeps; it submits
/// and waits for exactly what was asked.
pub proof fn lemma_submit_call_flags(ring: IoUring, submitted: u32, wait_nr: u32, kflags: SQFlags)
    requires
        submit_call(ring, submitted, wait_nr, kflags) is Some,
    ensures
        ({
            let args = submit_call(ring, submitted, wait_nr, kflags)->Some_0;
            &&& args.to_submit == submitted
            &&& args.min_complete == wait_nr
            &&& args.flags.has(EnterFlags::GETEVENTS) == (wait_nr != 0 || cq_enter_wanted(ring.flags, kflags))
            &&& args.flags.has(EnterFlags::SQ_WAKEUP) == (submitted != 0 && ring.sq.flags.has(SetupFlags::SQPOLL)
                && kflags.has(SQFlags::NEED_WAKEUP))
        }),
{
    assert(0u32 & 1u32 == 0u32) by (bit_vector);
    assert(0u32 & 2u32 == 0u32) by (bit_vector);
    assert(1u32 & 1u32 == 1u32) by (bit_vector);
    assert(1u32 & 2u32 == 0u32) by (bit_vector);
    assert(2u32 & 1u32 == 0u32) by (bit_vector);
    assert(2u32 & 2u32 == 2u32) by (bit_vector);
    assert(3u32 & 1u32 == 1u32) by (bit_vector);
    assert(3u32 & 2u32 == 2u32) by (bit_vector);
}

/// Nothing to submit and nothing to wait for makes no call when completions
/// need none: `submit` then reports the `submitted` count unchanged.
pub proof fn lemma_submit_idle(ring: IoUring, kflags: SQFlags)
    requires
        !cq_enter_wanted(ring.flags, kflags),
    ensures
        submit_call(ring, 0, 0, kflags) == None::<EnterArgs>,
{
}

/// `submit` makes a call whenever the submission side needs one: entries to
/// submit on a ring without a polling thread, or to a polling thread that
/// sleeps. Waking a sleeping thread sets the wake-up flag. Waiting for
/// completions always makes a call that asks for them.
pub proof fn lemma_submit_enters_when_needed(ring: IoUring, submitted: u32, wait_nr: u32, kflags: SQFlags)
    ensures
        submitted != 0 && !ring.sq.flags.has(SetupFlags::SQPOLL) ==> submit_call(ring, submitted, wait_nr, kflags) is Some,
        submitted != 0 && ring.sq.flags.has(SetupFlags::SQPOLL) && kflags.has(SQFlags::NEED_WAKEUP) ==> {
            &&& submit_call(ring, submitted, wait_nr, kflags) is Some
            &&& submit_call(ring, submitted, wait_nr, kflags)->Some_0.flags.bits & 2 == 2
        },
        wait_nr != 0 ==> {
            &&& submit_call(ring, submitted, wait_nr, kflags) is Some
            &&& submit_call(ring, submitted, wait_nr, kflags)->Some_0.flags.bits & 1 == 1
        },
        submit_call(ring, submitted, wait_nr, kflags) is None ==> {
            &&& wait_nr == 0
            &&& (submitted == 0 || (ring.sq.flags.has(SetupFlags::SQPOLL) && !kflags.has(SQFlags::NEED_WAKEUP)))
        },
{
    assert(2u32 & 2u32 == 2u32) by (bit_vector);
    assert(3u32 & 2u32 == 2u32) by (bit_vector);
    assert(1u32 & 1u32 == 1u32) by (bit_vector);
    assert(3u32 & 1u32 == 1u32) by (bit_vector);
}

/// The ring that setup builds uses each ring's own shape: the submission
/// queue has the submission ring's mask and entry count and the completion
/// queue the completion ring's, and it starts with nothing handed out.
pub proof fn lemma_setup_keeps_each_rings_shape(
    ring_fd: i32,
    p: IoUringParams,
    sq_ring_mask: u32,
    sq_ring_entries: u32,
    cq_ring_mask: u32,
    cq_ring_entries: u32,
)
    ensures
        ({
            let r = ring_of(ring_fd, p, sq_ring_mask, sq_ring_entries, cq_ring_mask, cq_ring_entries);
            &&& r.ring_fd == ring_fd
            &&& r.sq.ring_mask == sq_ring_mask && r.sq.ring_entries == sq_ring_entries
            &&& r.cq.ring_mask == cq_ring_mask && r.cq.ring_entries == cq_ring_entries
            &&& r.sq.sqe_head == 0 && r.sq.sqe_tail == 0
            &&& r.flags == p.flags && r.sq.flags == p.flags && r.features == p.features
        }),
{
}

/// Every submission slot that a freshly set-up ring hands out lies inside the
/// submission ring, when the kernel reported a ring of that shape.
pub proof fn lemma_setup_slots_in_submission_ring(
    ring_fd: i32,
    p: IoUringParams,
    sq_ring_mask: u32,
    sq_ring_entries: u32,
    cq_ring_mask: u32,
    cq_ring_entries: u32,
    pos: u32,
)
    requires
        ring_shape(sq_ring_entries, sq_ring_mask),
    ensures
        ring_of(ring_fd, p, sq_ring_mask, sq_ring_entries, cq_ring_mask, cq_ring_entries).sq.slot(pos) < sq_ring_entries,
{
    crate::ring_math::lemma_slot_is_mod(pos, sq_ring_entries, sq_ring_mask);
}

} // verus!
