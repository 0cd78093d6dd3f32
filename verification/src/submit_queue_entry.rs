use crate::constants::OpCode;
use crate::flags::SQEFlags;
use crate::sqe::IoUringSqe;
use vstd::prelude::*;

verus! {

/// One submission queue entry with typed opcode and flags.
#[derive(Clone, Copy, Debug, Default)]
pub struct SubmitQueueEntry {
    pub opcode: OpCode,
    pub flags: SQEFlags,
    pub ioprio: u16,
    pub fd: i32,
    pub off: u64,
    pub addr: u64,
    pub len: u32,
    pub op_flags: u32,
    pub user_data: u64,
    pub buf_index: u16,
    pub personality: u16,
    pub optlen: u32,
    pub optval: u64,
    pub padding: u64,
}

impl SubmitQueueEntry {
    /// The same entry, field for field, as the kernel reads it.
    pub fn to_sqe(&self) -> (r: IoUringSqe)
        ensures
            r == (IoUringSqe {
                opcode: self.opcode.bits,
                flags: self.flags.bits,
                ioprio: self.ioprio,
                fd: self.fd,
                off: self.off,
                addr: self.addr,
                len: self.len,
                op_flags: self.op_flags,
                user_data: self.user_data,
                buf_index: self.buf_index,
                personality: self.personality,
                optlen: self.optlen,
                optval: self.optval,
                padding: self.padding,
            }),
    {
        IoUringSqe {
            opcode: self.opcode.bits,
            flags: self.flags.bits,
            ioprio: self.ioprio,
            fd: self.fd,
            off: self.off,
            addr: self.addr,
            len: self.len,
            op_flags: self.op_flags,
            user_data: self.user_data,
            buf_index: self.buf_index,
            personality: self.personality,
            optlen: self.optlen,
            optval: self.optval,
            padding: self.padding,
        }
    }
}

} // verus!
