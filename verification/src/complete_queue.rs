use crate::constants::CQE_SIZE;
use crate::flags::{EnterFlags, FeatureFlags, SetupFlags};
use crate::params::IoUringParams;
use crate::ring_math::{lemma_mod_distinct, lemma_slot_is_mod, ring_shape};
use vstd::arithmetic::div_mod::lemma_mod_mod;
use vstd::arithmetic::power2::{lemma2_to64, lemma_pow2_adds, lemma_pow2_pos, pow2};
use vstd::prelude::*;

verus! {

/// The user's side of a completion ring: which slot a position occupies.
/// The kernel's head and tail live in memory shared with it and are passed
/// in where needed.
#[derive(Clone, Copy, Debug)]
pub struct CompleteQueue {
    pub ring_mask: u32,
    pub ring_entries: u32,
}

/// Where a pass over the completion ring stands: the next position to read,
/// and how many entries the pass has read.
#[derive(Clone, Copy, Debug, PartialEq, Eq)]
pub struct CqCursor {
    pub head: u32,
    pub consumed: u32,
}

/// The arguments of one `io_uring_enter` call.
#[derive(Clone, Copy, Debug)]
pub struct EnterArgs {
    pub to_submit: u32,
    pub min_complete: u32,
    pub flags: EnterFlags,
}

/// The number of distinct `u32` positions.
pub open spec fn positions() -> int {
    0x1_0000_0000
}

/// Position `h` moved on by `i`, wrapping around the `u32` range.
pub open spec fn pos_after(h: u32, i: int) -> u32 {
    ((h + i) % positions()) as u32
}

/// How many positions lie from `h` up to `t`, wrapping around the `u32` range.
pub open spec fn distance(h: u32, t: u32) -> nat {
    if h <= t {
        (t - h) as nat
    } else {
        (t + positions() - h) as nat
    }
}

impl CompleteQueue {
    /// The slot that position `pos` occupies.
    pub open spec fn slot(self, pos: u32) -> usize {
        (pos & self.ring_mask) as usize
    }

    /// One step of a pass that reads up to the kernel's tail `ktail`: the slot
    /// read, if any, and where the pass stands afterwards.
    pub open spec fn step(self, c: CqCursor, ktail: u32) -> (Option<usize>, CqCursor) {
        if c.head != ktail {
            (Some(self.slot(c.head)), CqCursor { head: pos_after(c.head, 1), consumed: (c.consumed + 1) as u32 })
        } else {
            (None, c)
        }
    }

    /// The slots read by at most `n` steps toward `ktail`, stopping at the
    /// first step that reads nothing, and where the pass then stands.
    pub open spec fn drain(self, c: CqCursor, ktail: u32, n: nat) -> (Seq<usize>, CqCursor)
        decreases n,
    {
        if n == 0 {
            (Seq::empty(), c)
        } else {
            let (s, c1) = self.step(c, ktail);
            match s {
                Some(slot) => {
                    let (rest, end) = self.drain(c1, ktail, (n - 1) as nat);
                    (seq![slot].add(rest), end)
                },
                None => (Seq::empty(), c),
            }
        }
    }

    /// A queue for the kernel's answer `p`, with the ring mask and entry count
    /// that the kernel wrote into the ring.
    pub fn new(p: &IoUringParams, ring_mask: u32, ring_entries: u32) -> (q: CompleteQueue)
        requires
            !p.flags.has(SetupFlags::CQE32),
        ensures
            q.ring_mask == ring_mask,
            q.ring_entries == ring_entries,
    {
        CompleteQueue { ring_mask, ring_entries }
    }

    /// Whether the completion ring needs a mapping of its own, rather than
    /// sharing the submission ring's.
    pub fn needs_own_mapping(p: &IoUringParams) -> (r: bool)
        ensures
            r == !p.features.has(FeatureFlags::SINGLE_MMAP),
    {
        !p.features.contains(FeatureFlags::SINGLE_MMAP)
    }

    /// Bytes to map for a completion ring of its own.
    pub fn ring_size(p: &IoUringParams) -> (r: usize)
        requires
            p.cq_off.cqes + p.cq_entries * 16 <= usize::MAX,
        ensures
            r == p.cq_off.cqes + p.cq_entries * 16,
    {
        p.cq_off.cqes as usize + p.cq_entries as usize * CQE_SIZE
    }

    /// The start of a pass at the kernel's head `khead`.
    pub fn start(khead: u32) -> (c: CqCursor)
        ensures
            c == (CqCursor { head: khead, consumed: 0 }),
    {
        CqCursor { head: khead, consumed: 0 }
    }

    /// One step of a pass over the completions, given the kernel's tail
    /// `ktail`: while the pass has not reached it, returns the slot to read
    /// and moves on by one position (wrapping), counting the entry;
    /// at the tail, returns `None` and leaves the pass as it is. The final
    /// `head` is what the pass stores back into the kernel's head.
    pub fn next_cqe(&self, cursor: &mut CqCursor, ktail: u32) -> (r: Option<usize>)
        requires
            old(cursor).head != ktail ==> old(cursor).consumed < u32::MAX,
        ensures
            (r, *final(cursor)) == self.step(*old(cursor), ktail),
    {
        if cursor.head != ktail {
            let index = (cursor.head & self.ring_mask) as usize;
            cursor.head = cursor.head.wrapping_add(1);
            cursor.consumed = cursor.consumed + 1;
            Some(index)
        } else {
            None
        }
    }

    /// The `io_uring_enter` call that waits for `wait_nr` completions without
    /// submitting anything.
    pub fn reap(wait_nr: u32) -> (r: EnterArgs)
        ensures
            r.to_submit == 0,
            r.min_complete == wait_nr,
            r.flags.bits == EnterFlags::GETEVENTS,
    {
        EnterArgs { to_submit: 0, min_complete: wait_nr, flags: EnterFlags::from_bits_retain(EnterFlags::GETEVENTS) }
    }
}

/// A pass reads exactly the completions between the kernel's head and tail:
/// from head `h`, with the tail at `t`, it reads the slots of positions
/// `h`, `h + 1`, ... (wrapping) up to but not including `t`, one per step,
/// counts them, ends with its head at `t`, and reads nothing more.
pub proof fn lemma_pass_reads_head_to_tail(q: CompleteQueue, c: CqCursor, t: u32)
    requires
        c.consumed + distance(c.head, t) <= u32::MAX,
    ensures
        ({
            let k = distance(c.head, t);
            let (slots, end) = q.drain(c, t, k);
            &&& slots == Seq::new(k, |i: int| q.slot(pos_after(c.head, i)))
            &&& end == (CqCursor { head: t, consumed: (c.consumed + k) as u32 })
            &&& q.step(end, t).0 == None::<usize>
        }),
    decreases distance(c.head, t),
{
    let k = distance(c.head, t);
    if k == 0 {
        assert(pos_after(c.head, 0) == c.head);
        assert(q.drain(c, t, k).0 =~= Seq::new(k, |i: int| q.slot(pos_after(c.head, i))));
    } else {
        let (s, c1) = q.step(c, t);
        assert(c.head != t);
        assert(distance(c1.head, t) == k - 1);
        lemma_pass_reads_head_to_tail(q, c1, t);
        let (rest, end) = q.drain(c1, t, (k - 1) as nat);
        assert forall|i: int| 0 <= i < k - 1 implies pos_after(c1.head, i) == pos_after(c.head, i + 1) by {
        }
        assert(q.drain(c, t, k).0 =~= Seq::new(k, |i: int| q.slot(pos_after(c.head, i))));
    }
}

/// A pass over at most a ring's worth of completions reads every slot at
/// most once: the `i`-th and `j`-th positions after any head occupy
/// different slots when they are less than a ring apart.
pub proof fn lemma_pass_slots_distinct(q: CompleteQueue, h: u32, i: int, j: int)
    requires
        ring_shape(q.ring_entries, q.ring_mask),
        0 <= i < j,
        j - i < q.ring_entries,
    ensures
        q.slot(pos_after(h, i)) != q.slot(pos_after(h, j)),
{
    let n = q.ring_entries as int;
    let k = choose|k: nat| k < 32 && q.ring_entries == pow2(k);
    lemma2_to64();
    lemma_pow2_adds(k, (32 - k) as nat);
    lemma_pow2_pos((32 - k) as nat);
    let m = pow2((32 - k) as nat) as int;
    assert(positions() == n * m);
    lemma_slot_is_mod(pos_after(h, i), q.ring_entries, q.ring_mask);
    lemma_slot_is_mod(pos_after(h, j), q.ring_entries, q.ring_mask);
    lemma_mod_mod(h + i, n, m);
    lemma_mod_mod(h + j, n, m);
    lemma_mod_distinct(h + i, h + j, n);
}

} // verus!
