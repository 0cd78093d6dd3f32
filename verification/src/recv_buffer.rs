use crate::buffer::BufSlot;
use crate::config::Config;
use crate::constants::BUF_DESC_SIZE;
use crate::ring_math::{is_next_pow2, lemma_next_pow2_of_pow2, next_power_of_two};
use vstd::arithmetic::power2::pow2;
use vstd::prelude::*;

verus! {

/// One descriptor of a provided-buffer ring, field for field as the kernel
/// reads it. The `tail` field of the first descriptor is the ring's tail.
#[derive(Clone, Copy, Debug, Default, PartialEq, Eq)]
pub struct IoUringBuf {
    pub addr: u64,
    pub len: u32,
    pub bid: u16,
    pub tail: u16,
}

/// The registration of a provided-buffer ring.
#[derive(Clone, Copy, Debug, Default)]
pub struct IoUringBufReg {
    pub ring_addr: u64,
    pub ring_entries: u32,
    pub bgid: u16,
    pub flags: u16,
    pub resv: [u64; 3],
}

impl IoUringBufReg {
    /// The registration of `entries` descriptors at `ring_addr` as group `bgid`.
    pub open spec fn for_ring(ring_addr: u64, entries: u32, bgid: u16) -> IoUringBufReg {
        IoUringBufReg { ring_addr, ring_entries: entries, bgid, flags: 0, resv: [0u64, 0u64, 0u64] }
    }

    /// The registration of `entries` descriptors at `ring_addr` as group `bgid`.
    pub fn new(ring_addr: u64, entries: u32, bgid: u16) -> (r: IoUringBufReg)
        ensures
            r == IoUringBufReg::for_ring(ring_addr, entries, bgid),
    {
        IoUringBufReg { ring_addr, ring_entries: entries, bgid, flags: 0, resv: [0u64, 0u64, 0u64] }
    }
}

/// Byte offset in the provided-buffer ring at which the tail that the
/// kernel reads is kept.
pub const KERNEL_TAIL_OFFSET: usize = 24;

/// The receive buffers of a ring: `recv_buffer_count` buffers of
/// `buffer_size` bytes one after the other at `data_addr`, advertised to the
/// kernel through a provided-buffer ring. Buffer ids start at 1.
#[derive(Clone, Copy, Debug)]
pub struct RecvBuffer {
    pub index_mark: u16,
    pub buffer_size: usize,
    pub data_addr: u64,
}

/// What `RecvBuffer::new` computes for the rings to be written.
#[derive(Debug)]
pub struct RecvBufferSetup {
    /// The receive buffers.
    pub recv_buffer: RecvBuffer,
    /// The descriptors that the ring starts with.
    pub descriptors: Vec<IoUringBuf>,
    /// The value stored at `KERNEL_TAIL_OFFSET` before the ring is used.
    pub kernel_tail: u16,
    /// The first tail that a recycle takes.
    pub current_tail: u16,
}

impl RecvBuffer {
    /// Where buffer `bid` starts, wrapping around the address space.
    pub open spec fn buf_addr(self, bid: u16) -> u64 {
        ((self.data_addr + (bid - 1) * self.buffer_size) % 0x1_0000_0000_0000_0000) as u64
    }

    /// The descriptor that setting up writes into slot `i`, for buffers of
    /// `size` bytes at `data_addr`.
    pub open spec fn initial_desc(data_addr: u64, size: u32, i: int) -> IoUringBuf {
        IoUringBuf { addr: (data_addr + size * i) as u64, len: size, bid: (i + 1) as u16, tail: 0 }
    }

    /// Bytes of the provided-buffer ring for `config`: one descriptor per buffer.
    pub fn ring_size(config: &Config) -> (r: usize)
        requires
            config.recv_buffer_count * 16 <= usize::MAX,
        ensures
            r == config.recv_buffer_count * 16,
    {
        config.recv_buffer_count as usize * BUF_DESC_SIZE
    }

    /// Bytes of the data allocation for `config`: every buffer.
    pub fn data_size(config: &Config) -> (r: u32)
        requires
            config.recv_buffer_size * config.recv_buffer_count <= u32::MAX,
        ensures
            r == config.recv_buffer_size * config.recv_buffer_count,
    {
        config.recv_buffer_size * config.recv_buffer_count
    }

    /// The receive buffers for `config` in the data allocation at `data_addr`,
    /// and how their ring starts: slot `i` advertises buffer `i + 1`; the
    /// tails start at the buffer size cut to 16 bits; the index mark is one
    /// less than the least power of two holding every buffer, cut to 16 bits.
    pub fn new(config: &Config, data_addr: u64) -> (r: RecvBufferSetup)
        requires
            config.recv_buffer_count > 0 ==> config.recv_buffer_size > 0,
            config.recv_buffer_count <= 0xffff,
            config.recv_buffer_size * config.recv_buffer_count <= u32::MAX,
            data_addr + config.recv_buffer_size * config.recv_buffer_count <= u64::MAX,
        ensures
            exists|p: u32|
                is_next_pow2(config.recv_buffer_count, p) && r.recv_buffer.index_mark == (p - 1) as u16,
            r.recv_buffer.buffer_size == config.recv_buffer_size,
            r.recv_buffer.data_addr == data_addr,
            r.descriptors@.len() == config.recv_buffer_count,
            forall|i: int|
                0 <= i < config.recv_buffer_count ==> #[trigger] r.descriptors@[i]
                    == RecvBuffer::initial_desc(data_addr, config.recv_buffer_size, i),
            r.kernel_tail == config.recv_buffer_size as u16,
            r.current_tail == config.recv_buffer_size as u16,
    {
        let count = config.recv_buffer_count;
        let size = config.recv_buffer_size;
        let mut descriptors: Vec<IoUringBuf> = Vec::new();
        let mut index: u32 = 0;
        while index < count
            invariant
                count == config.recv_buffer_count,
                size == config.recv_buffer_size,
                count <= 0xffff,
                size * count <= u32::MAX,
                data_addr + size * count <= u64::MAX,
                index <= count,
                descriptors@.len() == index,
                forall|i: int| 0 <= i < index ==> #[trigger] descriptors@[i]
                    == RecvBuffer::initial_desc(data_addr, size, i),
            decreases count - index,
        {
            proof {
                vstd::arithmetic::mul::lemma_mul_inequality(index as int, count as int, size as int);
                vstd::arithmetic::mul::lemma_mul_is_commutative(index as int, size as int);
                vstd::arithmetic::mul::lemma_mul_is_commutative(count as int, size as int);
            }
            let offset = size * index;
            descriptors.push(IoUringBuf { addr: data_addr + offset as u64, len: size, bid: 1u16 + index as u16, tail: 0 });
            index = index + 1;
        }
        let p = next_power_of_two(count);
        let recv_buffer = RecvBuffer { index_mark: (p - 1) as u16, buffer_size: size as usize, data_addr };
        RecvBufferSetup { recv_buffer, descriptors, kernel_tail: size as u16, current_tail: size as u16 }
    }

    /// Where buffer `bid` starts, wrapping around the address space.
    pub fn addr(&self, bid: u16) -> (r: u64)
        requires
            1 <= bid,
            (bid - 1) * self.buffer_size <= usize::MAX,
        ensures
            r == self.buf_addr(bid),
    {
        let offset = (bid - 1) as usize * self.buffer_size;
        self.data_addr.wrapping_add(offset as u64)
    }

    /// Gives buffer `bid` back to the kernel at the tail `tail` that this
    /// recycle took: returns the byte offset of the ring slot to write (the
    /// tail masked by the index mark, times a descriptor's size), what to
    /// write there, and the tail to store into the kernel's tail once that
    /// tail has reached `tail` (one more, wrapping).
    pub fn recycle(&self, tail: u16, bid: u16) -> (r: (usize, BufSlot, u16))
        requires
            1 <= bid,
            (bid - 1) * self.buffer_size <= usize::MAX,
        ensures
            r.0 == (tail & self.index_mark) * 16,
            r.1 == (BufSlot { addr: self.buf_addr(bid), len: self.buffer_size as u32, bid }),
            r.2 == (tail + 1) % 0x1_0000,
    {
        let offset = (tail & self.index_mark) as usize * BUF_DESC_SIZE;
        let addr = self.addr(bid);
        (offset, BufSlot { addr, len: self.buffer_size as u32, bid }, tail.wrapping_add(1))
    }
}

/// When the number of receive buffers is a power of two, the index mark
/// that setting up computes is one less than it, so a recycle's mark spans
/// exactly the ring.
pub proof fn lemma_index_mark_of_pow2_count(count: u32, k: nat, mark: u16)
    requires
        k < 32,
        count == pow2(k),
        count <= 0xffff,
        exists|p: u32| is_next_pow2(count, p) && mark == (p - 1) as u16,
    ensures
        mark + 1 == count,
{
    let p = choose|p: u32| is_next_pow2(count, p) && mark == (p - 1) as u16;
    lemma_next_pow2_of_pow2(count, k, p);
}

/// A recycle writes inside the ring whenever the index mark spans exactly
/// the ring's `count` slots: the slot it writes ends at or before the ring.
/// (With a count that is not a power of two the mark can reach past it.)
pub proof fn lemma_recycle_in_ring(r: RecvBuffer, count: u32, tail: u16)
    requires
        r.index_mark + 1 == count,
    ensures
        (tail & r.index_mark) * 16 + 16 <= count * 16,
{
    let m = r.index_mark;
    assert(tail & m <= m) by (bit_vector);
}

} // verus!
