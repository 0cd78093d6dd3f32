use vstd::prelude::*;

verus! {

/// The operation that a submission queue entry asks the kernel for.
#[derive(Clone, Copy, Debug, PartialEq, Eq, Hash, Default)]
pub struct OpCode {
    pub bits: u8,
}

impl OpCode {
    pub const NOP: u8 = 0;
    pub const READV: u8 = 1;
    pub const WRITEV: u8 = 2;
    pub const FSYNC: u8 = 3;
    pub const READ_FIXED: u8 = 4;
    pub const WRITE_FIXED: u8 = 5;
    pub const POLL_ADD: u8 = 6;
    pub const POLL_REMOVE: u8 = 7;
    pub const SYNC_FILE_RANGE: u8 = 8;
    pub const SENDMSG: u8 = 9;
    pub const RECVMSG: u8 = 10;
    pub const TIMEOUT: u8 = 11;
    pub const TIMEOUT_REMOVE: u8 = 12;
    pub const ACCEPT: u8 = 13;
    pub const ASYNC_CANCEL: u8 = 14;
    pub const LINK_TIMEOUT: u8 = 15;
    pub const CONNECT: u8 = 16;
    pub const FALLOCATE: u8 = 17;
    pub const OPENAT: u8 = 18;
    pub const CLOSE: u8 = 19;
    pub const FILES_UPDATE: u8 = 20;
    pub const STATX: u8 = 21;
    pub const READ: u8 = 22;
    pub const WRITE: u8 = 23;
    pub const FADVISE: u8 = 24;
    pub const MADVISE: u8 = 25;
    pub const SEND: u8 = 26;
    pub const RECV: u8 = 27;
    pub const OPENAT2: u8 = 28;
    pub const EPOLL_CTL: u8 = 29;
    pub const SPLICE: u8 = 30;
    pub const PROVIDE_BUFFERS: u8 = 31;
    pub const REMOVE_BUFFERS: u8 = 32;
    pub const TEE: u8 = 33;
    pub const SHUTDOWN: u8 = 34;
    pub const RENAMEAT: u8 = 35;
    pub const UNLINKAT: u8 = 36;
    pub const MKDIRAT: u8 = 37;
    pub const SYMLINKAT: u8 = 38;
    pub const LINKAT: u8 = 39;
    pub const MSG_RING: u8 = 40;
    pub const FSETXATTR: u8 = 41;
    pub const SETXATTR: u8 = 42;
    pub const FGETXATTR: u8 = 43;
    pub const GETXATTR: u8 = 44;
    pub const SOCKET: u8 = 45;
    pub const URING_CMD: u8 = 46;
    pub const SEND_ZC: u8 = 47;
    pub const SENDMSG_ZC: u8 = 48;
    pub const READ_MULTISHOT: u8 = 49;
    pub const WAITID: u8 = 50;
    pub const FUTEX_WAIT: u8 = 51;
    pub const FUTEX_WAKE: u8 = 52;
    pub const FUTEX_WAITV: u8 = 53;
    pub const FIXED_FD_INSTALL: u8 = 54;
    pub const LAST: u8 = 55;

    /// The operation with the given number.
    pub fn from_bits_retain(bits: u8) -> (r: OpCode)
        ensures
            r.bits == bits,
    {
        OpCode { bits }
    }

    /// The number of the operation.
    pub fn bits(&self) -> (r: u8)
        ensures
            r == self.bits,
    {
        self.bits
    }
}

/// Where each ring lies in the ring file, as an `mmap` offset.
#[derive(Clone, Copy, Debug, PartialEq, Eq, Hash, Default)]
pub struct Offset {
    pub bits: i64,
}

impl Offset {
    pub const SQ_RING: i64 = 0;
    pub const CQ_RING: i64 = 0x08000000;
    pub const SQES: i64 = 0x10000000;
    pub const PBUF_RING: i64 = 0x80000000;
    pub const PBUF_SHIFT: i64 = 16;
    pub const MMAP_MASK: i64 = 0xF8000000;

    /// The offset with the given value.
    pub fn from_bits_retain(bits: i64) -> (r: Offset)
        ensures
            r.bits == bits,
    {
        Offset { bits }
    }

    /// The value of the offset.
    pub fn bits(&self) -> (r: i64)
        ensures
            r == self.bits,
    {
        self.bits
    }
}

/// What an `io_uring_register` call registers.
#[derive(Clone, Copy, Debug, PartialEq, Eq, Hash, Default)]
pub struct RegisterCode {
    pub bits: u32,
}

impl RegisterCode {
    pub const REGISTER_BUFFERS: u32 = 0;
    pub const UNREGISTER_BUFFERS: u32 = 1;
    pub const REGISTER_FILES: u32 = 2;
    pub const UNREGISTER_FILES: u32 = 3;
    pub const REGISTER_EVENTFD: u32 = 4;
    pub const UNREGISTER_EVENTFD: u32 = 5;
    pub const REGISTER_FILES_UPDATE: u32 = 6;
    pub const REGISTER_EVENTFD_ASYNC: u32 = 7;
    pub const REGISTER_PROBE: u32 = 8;
    pub const REGISTER_PERSONALITY: u32 = 9;
    pub const UNREGISTER_PERSONALITY: u32 = 10;
    pub const REGISTER_RESTRICTIONS: u32 = 11;
    pub const REGISTER_ENABLE_RINGS: u32 = 12;
    pub const REGISTER_FILES2: u32 = 13;
    pub const REGISTER_FILES_UPDATE2: u32 = 14;
    pub const REGISTER_BUFFERS2: u32 = 15;
    pub const REGISTER_BUFFERS_UPDATE: u32 = 16;
    pub const REGISTER_IOWQ_AFF: u32 = 17;
    pub const UNREGISTER_IOWQ_AFF: u32 = 18;
    pub const REGISTER_IOWQ_MAX_WORKERS: u32 = 19;
    pub const REGISTER_RING_FDS: u32 = 20;
    pub const UNREGISTER_RING_FDS: u32 = 21;
    pub const REGISTER_PBUF_RING: u32 = 22;
    pub const UNREGISTER_PBUF_RING: u32 = 23;
    pub const REGISTER_SYNC_CANCEL: u32 = 24;
    pub const REGISTER_FILE_ALLOC_RANGE: u32 = 25;
    pub const REGISTER_LAST: u32 = 26;
    pub const REGISTER_USE_REGISTERED_RING: u32 = 2147483648;

    /// The code with the given value.
    pub fn from_bits_retain(bits: u32) -> (r: RegisterCode)
        ensures
            r.bits == bits,
    {
        RegisterCode { bits }
    }

    /// The value of the code.
    pub fn bits(&self) -> (r: u32)
        ensures
            r == self.bits,
    {
        self.bits
    }
}

/// `ioprio` bit of an accept entry: keep accepting after the first connection.
pub const ACCEPT_MULTISHOT: u16 = 1;
/// `ioprio` bit of a receive entry: keep receiving into selected buffers.
pub const RECV_MULTISHOT: u16 = 2;
/// Size in bytes of one submission queue entry.
pub const SQE_SIZE: usize = 64;
/// Size in bytes of one completion queue entry.
pub const CQE_SIZE: usize = 16;
/// Size in bytes of one slot of the submission index array.
pub const SQ_ARRAY_SLOT_SIZE: usize = 4;
/// Size in bytes of one provided-buffer descriptor.
pub const BUF_DESC_SIZE: usize = 16;

} // verus!
