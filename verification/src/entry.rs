use crate::complete_queue_entry::CompleteQueueEntry;
use crate::flags::CQEFlags;
use vstd::prelude::*;

verus! {

/// The kind of request that an entry stands for.
#[derive(Clone, Copy, Debug, PartialEq, Eq, Structural, Default)]
pub enum OpType {
    #[default]
    Nop,
    Accept,
    Read,
    Write,
    Receive,
    Send,
    SendZeroCopy,
}

/// What the user knows of one request in flight: its kind, whether it
/// completes more than once, and what its last completion reported.
#[derive(Clone, Copy, Debug, Default)]
pub struct Entry {
    pub res: i32,
    pub len: u32,
    pub flags: CQEFlags,
    pub send_bid: u16,
    pub bid: u16,
    pub op_type: OpType,
    pub multishot: bool,
}

impl Entry {
    /// The fresh entry for a request of kind `op_type`.
    pub open spec fn fresh(op_type: OpType, multishot: bool) -> Entry {
        Entry {
            res: 0,
            len: 0,
            flags: CQEFlags { bits: 0 },
            send_bid: 0,
            bid: 0,
            op_type,
            multishot,
        }
    }

    /// A fresh entry for a request of kind `op_type`: every count is zero.
    pub fn new(op_type: OpType, multishot: bool) -> (e: Entry)
        ensures
            e == Entry::fresh(op_type, multishot),
    {
        Entry { res: 0, len: 0, flags: CQEFlags::empty(), send_bid: 0, bid: 0, op_type, multishot }
    }

    /// Records the completion `cqe` of this request: its result and flags.
    /// Returns whether the entry stays alive for further completions, which
    /// is the case exactly for a multishot request.
    pub fn complete(&mut self, cqe: &CompleteQueueEntry) -> (keep: bool)
        ensures
            *final(self) == (Entry { res: cqe.res, flags: CQEFlags { bits: cqe.flags }, ..*old(self) }),
            keep == old(self).multishot,
    {
        self.res = cqe.res;
        self.flags = CQEFlags::from_bits_retain(cqe.flags);
        self.multishot
    }
}

} // verus!
