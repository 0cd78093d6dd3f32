use vstd::prelude::*;

verus! {

/// Flags given to the kernel when a ring is set up.
/// A set of bits; every bit is kept, known or not.
#[derive(Clone, Copy, Debug, PartialEq, Eq, Hash, Default)]
pub struct SetupFlags {
    pub bits: u32,
}

impl SetupFlags {
    pub const IOPOLL: u32 = 1;
    pub const SQPOLL: u32 = 2;
    pub const SQ_AFF: u32 = 4;
    pub const CQSIZE: u32 = 8;
    pub const CLAMP: u32 = 16;
    pub const ATTACH_WQ: u32 = 32;
    pub const R_DISABLED: u32 = 64;
    pub const SUBMIT_ALL: u32 = 128;
    pub const COOP_TASKRUN: u32 = 256;
    pub const TASKRUN_FLAG: u32 = 512;
    pub const SQE128: u32 = 1024;
    pub const CQE32: u32 = 2048;
    pub const SINGLE_ISSUER: u32 = 4096;
    pub const DEFER_TASKRUN: u32 = 8192;
    pub const NO_MMAP: u32 = 16384;
    pub const REGISTERED_FD_ONLY: u32 = 32768;
    pub const NO_SQARRAY: u32 = 65536;

    /// Whether every bit of `bits` is set.
    pub open spec fn has(self, bits: u32) -> bool {
        self.bits & bits == bits
    }

    /// Whether some bit of `bits` is set.
    pub open spec fn meets(self, bits: u32) -> bool {
        self.bits & bits != 0
    }

    /// The set with no bit set.
    pub fn empty() -> (r: SetupFlags)
        ensures
            r.bits == 0,
    {
        SetupFlags { bits: 0 }
    }

    /// The set of exactly the given bits.
    pub fn from_bits_retain(bits: u32) -> (r: SetupFlags)
        ensures
            r.bits == bits,
    {
        SetupFlags { bits }
    }

    /// The bits of the set.
    pub fn bits(&self) -> (r: u32)
        ensures
            r == self.bits,
    {
        self.bits
    }

    /// Whether every bit of `bits` is set.
    pub fn contains(&self, bits: u32) -> (r: bool)
        ensures
            r == self.has(bits),
    {
        self.bits & bits == bits
    }

    /// Whether some bit of `bits` is set.
    pub fn intersects(&self, bits: u32) -> (r: bool)
        ensures
            r == self.meets(bits),
    {
        self.bits & bits != 0
    }

    /// Sets the bits of `bits`, keeping the others.
    pub fn insert(&mut self, bits: u32)
        ensures
            final(self).bits == old(self).bits | bits,
    {
        self.bits = self.bits | bits;
    }
}

/// Features that the kernel reports for a ring it has set up.
/// A set of bits; every bit is kept, known or not.
#[derive(Clone, Copy, Debug, PartialEq, Eq, Hash, Default)]
pub struct FeatureFlags {
    pub bits: u32,
}

impl FeatureFlags {
    pub const SINGLE_MMAP: u32 = 1;
    pub const NODROP: u32 = 2;
    pub const SUBMIT_STABLE: u32 = 4;
    pub const RW_CUR_POS: u32 = 8;
    pub const CUR_PERSONALITY: u32 = 16;
    pub const FAST_POLL: u32 = 32;
    pub const POLL_32BITS: u32 = 64;
    pub const SQPOLL_NONFIXED: u32 = 128;
    pub const EXT_ARG: u32 = 256;
    pub const NATIVE_WORKERS: u32 = 512;
    pub const RSRC_TAGS: u32 = 1024;
    pub const CQE_SKIP: u32 = 2048;
    pub const LINKED_FILE: u32 = 4096;
    pub const REG_REG_RING: u32 = 8192;

    /// Whether every bit of `bits` is set.
    pub open spec fn has(self, bits: u32) -> bool {
        self.bits & bits == bits
    }

    /// The set with no bit set.
    pub fn empty() -> (r: FeatureFlags)
        ensures
            r.bits == 0,
    {
        FeatureFlags { bits: 0 }
    }

    /// The set of exactly the given bits.
    pub fn from_bits_retain(bits: u32) -> (r: FeatureFlags)
        ensures
            r.bits == bits,
    {
        FeatureFlags { bits }
    }

    /// The bits of the set.
    pub fn bits(&self) -> (r: u32)
        ensures
            r == self.bits,
    {
        self.bits
    }

    /// Whether every bit of `bits` is set.
    pub fn contains(&self, bits: u32) -> (r: bool)
        ensures
            r == self.has(bits),
    {
        self.bits & bits == bits
    }
}

/// Flags that the kernel keeps in the submission ring.
/// A set of bits; every bit is kept, known or not.
#[derive(Clone, Copy, Debug, PartialEq, Eq, Hash, Default)]
pub struct SQFlags {
    pub bits: u32,
}

impl SQFlags {
    pub const NEED_WAKEUP: u32 = 1;
    pub const CQ_OVERFLOW: u32 = 2;
    pub const TASKRUN: u32 = 4;

    /// Whether every bit of `bits` is set.
    pub open spec fn has(self, bits: u32) -> bool {
        self.bits & bits == bits
    }

    /// Whether some bit of `bits` is set.
    pub open spec fn meets(self, bits: u32) -> bool {
        self.bits & bits != 0
    }

    /// The set with no bit set.
    pub fn empty() -> (r: SQFlags)
        ensures
            r.bits == 0,
    {
        SQFlags { bits: 0 }
    }

    /// The set of exactly the given bits.
    pub fn from_bits_retain(bits: u32) -> (r: SQFlags)
        ensures
            r.bits == bits,
    {
        SQFlags { bits }
    }

    /// The bits of the set.
    pub fn bits(&self) -> (r: u32)
        ensures
            r == self.bits,
    {
        self.bits
    }

    /// Whether every bit of `bits` is set.
    pub fn contains(&self, bits: u32) -> (r: bool)
        ensures
            r == self.has(bits),
    {
        self.bits & bits == bits
    }

    /// Whether some bit of `bits` is set.
    pub fn intersects(&self, bits: u32) -> (r: bool)
        ensures
            r == self.meets(bits),
    {
        self.bits & bits != 0
    }
}

/// Flags kept in the completion ring.
/// A set of bits; every bit is kept, known or not.
#[derive(Clone, Copy, Debug, PartialEq, Eq, Hash, Default)]
pub struct CQFlags {
    pub bits: u32,
}

impl CQFlags {
    pub const EVENTFD_DISABLED: u32 = 1;

    /// The set of exactly the given bits.
    pub fn from_bits_retain(bits: u32) -> (r: CQFlags)
        ensures
            r.bits == bits,
    {
        CQFlags { bits }
    }

    /// The bits of the set.
    pub fn bits(&self) -> (r: u32)
        ensures
            r == self.bits,
    {
        self.bits
    }
}

/// Flags of one `io_uring_enter` call.
/// A set of bits; every bit is kept, known or not.
#[derive(Clone, Copy, Debug, PartialEq, Eq, Hash, Default)]
pub struct EnterFlags {
    pub bits: u32,
}

impl EnterFlags {
    pub const GETEVENTS: u32 = 1;
    pub const SQ_WAKEUP: u32 = 2;
    pub const SQ_WAIT: u32 = 4;
    pub const EXT_ARG: u32 = 8;
    pub const REGISTERED_RING: u32 = 16;

    /// Whether every bit of `bits` is set.
    pub open spec fn has(self, bits: u32) -> bool {
        self.bits & bits == bits
    }

    /// The set with no bit set.
    pub fn empty() -> (r: EnterFlags)
        ensures
            r.bits == 0,
    {
        EnterFlags { bits: 0 }
    }

    /// The set of exactly the given bits.
    pub fn from_bits_retain(bits: u32) -> (r: EnterFlags)
        ensures
            r.bits == bits,
    {
        EnterFlags { bits }
    }

    /// The bits of the set.
    pub fn bits(&self) -> (r: u32)
        ensures
            r == self.bits,
    {
        self.bits
    }

    /// Whether every bit of `bits` is set.
    pub fn contains(&self, bits: u32) -> (r: bool)
        ensures
            r == self.has(bits),
    {
        self.bits & bits == bits
    }

    /// Sets the bits of `bits`, keeping the others.
    pub fn insert(&mut self, bits: u32)
        ensures
            final(self).bits == old(self).bits | bits,
    {
        self.bits = self.bits | bits;
    }
}

/// Flags of one operation in a probe answer.
/// A set of bits; every bit is kept, known or not.
#[derive(Clone, Copy, Debug, PartialEq, Eq, Hash, Default)]
pub struct ProbeOpFlags {
    pub bits: u16,
}

impl ProbeOpFlags {
    pub const SUPPORTED: u16 = 1;

    /// Whether every bit of `bits` is set.
    pub open spec fn has(self, bits: u16) -> bool {
        self.bits & bits == bits
    }

    /// The set of exactly the given bits.
    pub fn from_bits_retain(bits: u16) -> (r: ProbeOpFlags)
        ensures
            r.bits == bits,
    {
        ProbeOpFlags { bits }
    }

    /// Whether every bit of `bits` is set.
    pub fn contains(&self, bits: u16) -> (r: bool)
        ensures
            r == self.has(bits),
    {
        self.bits & bits == bits
    }
}

/// Flags of one submission queue entry.
/// A set of bits; every bit is kept, known or not.
#[derive(Clone, Copy, Debug, PartialEq, Eq, Hash, Default)]
pub struct SQEFlags {
    pub bits: u8,
}

impl SQEFlags {
    pub const FIXED_FILE: u8 = 1;
    pub const IO_DRAIN: u8 = 2;
    pub const IO_LINK: u8 = 4;
    pub const IO_HARDLINK: u8 = 8;
    pub const ASYNC: u8 = 16;
    pub const BUFFER_SELECT: u8 = 32;
    pub const CQE_SKIP_SUCCESS: u8 = 64;

    /// The set of exactly the given bits.
    pub fn from_bits_retain(bits: u8) -> (r: SQEFlags)
        ensures
            r.bits == bits,
    {
        SQEFlags { bits }
    }

    /// The bits of the set.
    pub fn bits(&self) -> (r: u8)
        ensures
            r == self.bits,
    {
        self.bits
    }
}

/// Flags of one completion queue entry.
/// A set of bits; every bit is kept, known or not.
#[derive(Clone, Copy, Debug, PartialEq, Eq, Hash, Default)]
pub struct CQEFlags {
    pub bits: u32,
}

impl CQEFlags {
    pub const BUFFER: u32 = 1;
    pub const MORE: u32 = 2;
    pub const SOCK_NONEMPTY: u32 = 4;
    pub const NOTIF: u32 = 8;

    /// Whether every bit of `bits` is set.
    pub open spec fn has(self, bits: u32) -> bool {
        self.bits & bits == bits
    }

    /// The set with no bit set.
    pub fn empty() -> (r: CQEFlags)
        ensures
            r.bits == 0,
    {
        CQEFlags { bits: 0 }
    }

    /// The set of exactly the given bits.
    pub fn from_bits_retain(bits: u32) -> (r: CQEFlags)
        ensures
            r.bits == bits,
    {
        CQEFlags { bits }
    }

    /// The bits of the set.
    pub fn bits(&self) -> (r: u32)
        ensures
            r == self.bits,
    {
        self.bits
    }

    /// Whether every bit of `bits` is set.
    pub fn contains(&self, bits: u32) -> (r: bool)
        ensures
            r == self.has(bits),
    {
        self.bits & bits == bits
    }
}

} // verus!
