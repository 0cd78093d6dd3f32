use crate::recv_buffer::IoUringBuf;
use vstd::prelude::*;

verus! {

/// A group of equally sized buffers that the kernel picks from, laid out
/// one after the other in one allocation at `data_addr`. Buffer ids start
/// at 1: buffer `bid` starts `size * (bid - 1)` bytes into the allocation.
#[derive(Clone, Copy, Debug)]
pub struct BufferGroup {
    pub bgid: u16,
    pub entries: u32,
    pub size: usize,
    pub data_addr: u64,
    pub data_len: usize,
}

/// What one slot of a provided-buffer ring advertises: a buffer's address,
/// length and id. Writing it leaves the ring's tail alone.
#[derive(Clone, Copy, Debug, PartialEq, Eq, Structural)]
pub struct BufSlot {
    pub addr: u64,
    pub len: u32,
    pub bid: u16,
}

impl BufferGroup {
    /// The group's shape: at most as many buffers as 16-bit ids can name,
    /// each of at least one byte when there are any, all inside the allocation.
    pub open spec fn wf(self) -> bool {
        &&& self.entries <= 0xffff
        &&& self.entries > 0 ==> self.size > 0
        &&& self.data_len == self.size * self.entries
        &&& self.data_addr + self.data_len <= u64::MAX
    }

    /// Where buffer `bid` starts.
    pub open spec fn buf_addr(self, bid: u16) -> u64 {
        (self.data_addr + self.size * (bid - 1)) as u64
    }

    /// The descriptor that setting up the ring writes into slot `i`.
    pub open spec fn initial_desc(self, i: int) -> IoUringBuf {
        IoUringBuf { addr: (self.data_addr + self.size * i) as u64, len: self.size as u32, bid: (i + 1) as u16, tail: 0 }
    }

    /// What recycling buffer `bid` advertises.
    pub open spec fn recycled(self, bid: u16) -> BufSlot {
        BufSlot { addr: self.buf_addr(bid), len: self.size as u32, bid }
    }

    /// A group `bgid` of `entries` buffers of `size` bytes in the allocation
    /// at `data_addr`, the descriptors its ring starts with (slot `i`
    /// advertises buffer `i + 1`), and the tail to store into the first
    /// slot's tail field, which says that all `entries` buffers are available.
    pub fn new(bgid: u16, entries: u32, size: usize, data_addr: u64) -> (r: (BufferGroup, Vec<IoUringBuf>, u16))
        requires
            entries <= 0xffff,
            entries > 0 ==> size > 0,
            size * entries <= usize::MAX,
            data_addr + size * entries <= u64::MAX,
        ensures
            r.0 == (BufferGroup { bgid, entries, size, data_addr, data_len: (size * entries) as usize }),
            r.0.wf(),
            r.1@.len() == entries,
            forall|i: int| 0 <= i < entries ==> #[trigger] r.1@[i] == r.0.initial_desc(i),
            r.2 == entries as u16,
    {
        let sz = size * entries as usize;
        let group = BufferGroup { bgid, entries, size, data_addr, data_len: sz };
        let mut bufs: Vec<IoUringBuf> = Vec::new();
        let mut bid: u32 = 0;
        while bid < entries
            invariant
                group == (BufferGroup { bgid, entries, size, data_addr, data_len: sz }),
                sz == size * entries,
                entries <= 0xffff,
                data_addr + sz <= u64::MAX,
                bid <= entries,
                bufs@.len() == bid,
                forall|i: int| 0 <= i < bid ==> #[trigger] bufs@[i] == group.initial_desc(i),
            decreases entries - bid,
        {
            proof {
                vstd::arithmetic::mul::lemma_mul_inequality(bid as int, entries as int, size as int);
                vstd::arithmetic::mul::lemma_mul_is_commutative(bid as int, size as int);
                vstd::arithmetic::mul::lemma_mul_is_commutative(entries as int, size as int);
            }
            let offset = size * bid as usize;
            bufs.push(IoUringBuf { addr: data_addr + offset as u64, len: size as u32, bid: 1u16 + bid as u16, tail: 0 });
            bid = bid + 1;
        }
        (group, bufs, entries as u16)
    }

    /// The whole allocation, as the `iovec` that registers it.
    pub fn iovec(&self) -> (r: (u64, usize))
        requires
            self.data_len > 0,
        ensures
            r == (self.data_addr, self.data_len),
    {
        (self.data_addr, self.data_len)
    }

    /// Where buffer `bid` starts.
    pub fn addr(&self, bid: u16) -> (r: u64)
        requires
            self.wf(),
            1 <= bid <= self.entries,
        ensures
            r == self.buf_addr(bid),
    {
        proof {
            vstd::arithmetic::mul::lemma_mul_inequality((bid - 1) as int, self.entries as int, self.size as int);
            vstd::arithmetic::mul::lemma_mul_is_commutative((bid - 1) as int, self.size as int);
            vstd::arithmetic::mul::lemma_mul_is_commutative(self.entries as int, self.size as int);
        }
        self.data_addr + (self.size * (bid - 1) as usize) as u64
    }

    /// Gives buffer `bid` back to the kernel, at the ring's tail `tail`:
    /// returns the slot to write (the tail masked to the ring), what to write
    /// there, and the tail to store afterwards (one more, wrapping).
    pub fn recycle(&self, tail: u16, bid: u16) -> (r: (usize, BufSlot, u16))
        requires
            self.wf(),
            1 <= bid <= self.entries,
        ensures
            r.0 == (tail as u32 & ((self.entries - 1) as u32)) as usize,
            r.0 < self.entries,
            r.1 == self.recycled(bid),
            r.2 == (tail + 1) % 0x1_0000,
    {
        let addr = self.addr(bid);
        let mask: u32 = self.entries - 1;
        let t = tail as u32;
        assert(t & mask <= mask) by (bit_vector);
        let slot = (t & mask) as usize;
        (slot, BufSlot { addr, len: self.size as u32, bid }, tail.wrapping_add(1))
    }
}

/// Recycling a buffer advertises it exactly as setting up the ring did:
/// the slot written for buffer `bid` holds the address, length and id of
/// the descriptor that first advertised it.
pub proof fn lemma_recycle_restores_descriptor(g: BufferGroup, bid: u16)
    requires
        g.wf(),
        1 <= bid <= g.entries,
    ensures
        g.recycled(bid).addr == g.initial_desc(bid - 1).addr,
        g.recycled(bid).len == g.initial_desc(bid - 1).len,
        g.recycled(bid).bid == g.initial_desc(bid - 1).bid,
{
}

/// Distinct buffers never overlap: the buffers of two different ids start
/// at least a buffer's length apart.
pub proof fn lemma_buffers_disjoint(g: BufferGroup, a: u16, b: u16)
    requires
        g.wf(),
        1 <= a < b <= g.entries,
    ensures
        g.buf_addr(a) + g.size <= g.buf_addr(b),
        g.buf_addr(b) + g.size <= g.data_addr + g.data_len,
{
    assert(g.size * (b - 1) >= g.size * a) by (nonlinear_arith)
        requires
            b - 1 >= a,
            g.size > 0,
    ;
    assert(g.size * a == g.size * (a - 1) + g.size) by (nonlinear_arith);
    assert(g.size * (b - 1) + g.size <= g.size * g.entries) by (nonlinear_arith)
        requires
            b <= g.entries,
            g.size > 0,
    ;
}

} // verus!
