use crate::constants::{OpCode, ACCEPT_MULTISHOT, RECV_MULTISHOT};
use crate::flags::SQEFlags;
use vstd::prelude::*;

verus! {

/// One submission queue entry, field for field as the kernel reads it.
#[derive(Clone, Copy, Debug, Default)]
pub struct IoUringSqe {
    pub opcode: u8,
    pub flags: u8,
    pub ioprio: u16,
    pub fd: i32,
    pub off: u64,
    pub addr: u64,
    pub len: u32,
    pub op_flags: u32,
    pub user_data: u64,
    pub buf_index: u16,
    pub personality: u16,
    pub optlen: u32,
    pub optval: u64,
    pub padding: u64,
}

/// The entry whose every field is zero.
pub open spec fn zero_sqe() -> IoUringSqe {
    IoUringSqe {
        opcode: 0,
        flags: 0,
        ioprio: 0,
        fd: 0,
        off: 0,
        addr: 0,
        len: 0,
        op_flags: 0,
        user_data: 0,
        buf_index: 0,
        personality: 0,
        optlen: 0,
        optval: 0,
        padding: 0,
    }
}

/// The entry for `opcode` on `fd` at `offset` over the buffer at `buf_addr`
/// of `buf_len` bytes, tagged with `user_data`; every other field is zero.
pub open spec fn prepared_sqe(
    opcode: u8,
    fd: i32,
    offset: u64,
    buf_addr: u64,
    buf_len: usize,
    user_data: u64,
) -> IoUringSqe {
    IoUringSqe {
        opcode,
        fd,
        off: offset,
        addr: buf_addr,
        len: buf_len as u32,
        user_data,
        ..zero_sqe()
    }
}

impl IoUringSqe {
    /// The entry whose every field is zero.
    pub fn zeroed() -> (r: IoUringSqe)
        ensures
            r == zero_sqe(),
    {
        IoUringSqe {
            opcode: 0,
            flags: 0,
            ioprio: 0,
            fd: 0,
            off: 0,
            addr: 0,
            len: 0,
            op_flags: 0,
            user_data: 0,
            buf_index: 0,
            personality: 0,
            optlen: 0,
            optval: 0,
            padding: 0,
        }
    }

    /// Overwrites the entry with a request for `opcode` on `fd` at `offset`
    /// over the buffer at `buf_addr` of `buf_len` bytes (the length is cut to
    /// 32 bits), tagged with `user_data`.
    pub fn prepare(&mut self, opcode: u8, fd: i32, offset: u64, buf_addr: u64, buf_len: usize, user_data: u64)
        ensures
            *final(self) == prepared_sqe(opcode, fd, offset, buf_addr, buf_len, user_data),
            final(self).opcode == opcode,
            final(self).fd == fd,
            final(self).off == offset,
            final(self).addr == buf_addr,
            final(self).len == buf_len as u32,
            final(self).user_data == user_data,
    {
        let mut e = IoUringSqe::zeroed();
        e.opcode = opcode;
        e.fd = fd;
        e.off = offset;
        e.addr = buf_addr;
        e.len = buf_len as u32;
        e.user_data = user_data;
        *self = e;
    }

    /// The no-op entry on no file, tagged with `user_data`.
    pub open spec fn nop_spec(user_data: u64) -> IoUringSqe {
        IoUringSqe { opcode: OpCode::NOP, fd: -1i32, user_data, ..zero_sqe() }
    }

    /// A no-op entry on no file, tagged with `user_data`.
    pub fn nop(user_data: u64) -> (r: IoUringSqe)
        ensures
            r == IoUringSqe::nop_spec(user_data),
    {
        let mut e = IoUringSqe::zeroed();
        e.opcode = OpCode::NOP;
        e.fd = -1;
        e.user_data = user_data;
        e
    }
}

/// A read of `buf_len` bytes at `offset` of `fd` into the buffer at `buf_addr`.
pub open spec fn read_sqe(fd: i32, offset: u64, buf_addr: u64, buf_len: usize, user_data: u64) -> IoUringSqe {
    prepared_sqe(OpCode::READ, fd, offset, buf_addr, buf_len, user_data)
}

/// A write of `buf_len` bytes from the buffer at `buf_addr` at `offset` of `fd`.
pub open spec fn write_sqe(fd: i32, offset: u64, buf_addr: u64, buf_len: usize, user_data: u64) -> IoUringSqe {
    prepared_sqe(OpCode::WRITE, fd, offset, buf_addr, buf_len, user_data)
}

/// A multishot accept on the listening socket `fd`.
pub open spec fn accept_sqe(fd: i32, user_data: u64) -> IoUringSqe {
    IoUringSqe { opcode: OpCode::ACCEPT, fd, user_data, ioprio: ACCEPT_MULTISHOT, ..zero_sqe() }
}

/// A multishot receive on the socket `fd` into buffers that the kernel
/// selects from buffer group 0.
pub open spec fn recv_sqe(fd: i32, user_data: u64) -> IoUringSqe {
    IoUringSqe {
        opcode: OpCode::RECV,
        fd,
        user_data,
        ioprio: RECV_MULTISHOT,
        flags: SQEFlags::BUFFER_SELECT,
        ..zero_sqe()
    }
}

impl IoUringSqe {
    /// A read request; see `read_sqe`.
    pub fn read(fd: i32, offset: u64, buf_addr: u64, buf_len: usize, user_data: u64) -> (r: IoUringSqe)
        ensures
            r == read_sqe(fd, offset, buf_addr, buf_len, user_data),
            r.opcode == OpCode::READ,
            r.fd == fd,
            r.off == offset,
            r.addr == buf_addr,
            r.len == buf_len as u32,
            r.user_data == user_data,
    {
        let mut e = IoUringSqe::zeroed();
        e.prepare(OpCode::READ, fd, offset, buf_addr, buf_len, user_data);
        e
    }

    /// A write request; see `write_sqe`.
    pub fn write(fd: i32, offset: u64, buf_addr: u64, buf_len: usize, user_data: u64) -> (r: IoUringSqe)
        ensures
            r == write_sqe(fd, offset, buf_addr, buf_len, user_data),
            r.opcode == OpCode::WRITE,
            r.fd == fd,
            r.off == offset,
            r.addr == buf_addr,
            r.len == buf_len as u32,
            r.user_data == user_data,
    {
        let mut e = IoUringSqe::zeroed();
        e.prepare(OpCode::WRITE, fd, offset, buf_addr, buf_len, user_data);
        e
    }

    /// A multishot accept request; see `accept_sqe`. It is prepared over the
    /// empty buffer at `empty_addr`, whose address is then cleared.
    pub fn accept(fd: i32, empty_addr: u64, user_data: u64) -> (r: IoUringSqe)
        ensures
            r == accept_sqe(fd, user_data),
            r.opcode == OpCode::ACCEPT,
            r.fd == fd,
            r.user_data == user_data,
            r.ioprio == ACCEPT_MULTISHOT,
            r.addr == 0,
    {
        let mut e = IoUringSqe::zeroed();
        e.prepare(OpCode::ACCEPT, fd, 0, empty_addr, 0, user_data);
        e.addr = 0;
        let prio = e.ioprio;
        assert(prio == 0 ==> prio | 1u16 == 1u16) by (bit_vector);
        e.ioprio = e.ioprio | ACCEPT_MULTISHOT;
        e
    }

    /// A multishot receive request; see `recv_sqe`. It is prepared over the
    /// empty buffer at `empty_addr`, whose address is then cleared.
    pub fn recv(fd: i32, empty_addr: u64, user_data: u64) -> (r: IoUringSqe)
        ensures
            r == recv_sqe(fd, user_data),
            r.opcode == OpCode::RECV,
            r.fd == fd,
            r.user_data == user_data,
            r.ioprio == RECV_MULTISHOT,
            r.flags == SQEFlags::BUFFER_SELECT,
            r.addr == 0,
            r.buf_index == 0,
    {
        let mut e = IoUringSqe::zeroed();
        e.prepare(OpCode::RECV, fd, 0, empty_addr, 0, user_data);
        e.addr = 0;
        let prio = e.ioprio;
        let fl = e.flags;
        assert(prio == 0 ==> prio | 2u16 == 2u16) by (bit_vector);
        assert(fl == 0 ==> fl | 32u8 == 32u8) by (bit_vector);
        e.ioprio = e.ioprio | RECV_MULTISHOT;
        e.flags = e.flags | SQEFlags::BUFFER_SELECT;
        e.buf_index = 0;
        e
    }
}

/// A prepared request carries the caller's arguments: for every opcode, fd,
/// offset, buffer and tag, the entry holds exactly them (the length cut to
/// 32 bits), with no flags, priority or buffer index of its own.
pub proof fn lemma_prepared_carries_arguments(
    opcode: u8,
    fd: i32,
    offset: u64,
    buf_addr: u64,
    buf_len: usize,
    user_data: u64,
)
    ensures
        ({
            let e = prepared_sqe(opcode, fd, offset, buf_addr, buf_len, user_data);
            &&& e.opcode == opcode
            &&& e.fd == fd
            &&& e.off == offset
            &&& e.addr == buf_addr
            &&& e.len as int == buf_len as int % 0x1_0000_0000
            &&& e.user_data == user_data
            &&& e.flags == 0 && e.ioprio == 0 && e.buf_index == 0
        }),
{
    assert(buf_len as u32 as int == buf_len as int % 0x1_0000_0000) by (bit_vector);
}

/// A read request reads what it was asked to: its opcode is READ and it
/// carries the fd, file offset, buffer, length and tag it was given, for
/// every offset.
pub proof fn lemma_read_request_carries_arguments(fd: i32, offset: u64, buf_addr: u64, buf_len: usize, user_data: u64)
    ensures
        read_sqe(fd, offset, buf_addr, buf_len, user_data).opcode == 22,
        read_sqe(fd, offset, buf_addr, buf_len, user_data).fd == fd,
        read_sqe(fd, offset, buf_addr, buf_len, user_data).off == offset,
        read_sqe(fd, offset, buf_addr, buf_len, user_data).addr == buf_addr,
        read_sqe(fd, offset, buf_addr, buf_len, user_data).len == buf_len as u32,
        read_sqe(fd, offset, buf_addr, buf_len, user_data).user_data == user_data,
{
}

/// A write request writes what it was asked to: its opcode is WRITE and it
/// carries the fd, file offset, buffer, length and tag it was given, for
/// every offset.
pub proof fn lemma_write_request_carries_arguments(fd: i32, offset: u64, buf_addr: u64, buf_len: usize, user_data: u64)
    ensures
        write_sqe(fd, offset, buf_addr, buf_len, user_data).opcode == 23,
        write_sqe(fd, offset, buf_addr, buf_len, user_data).fd == fd,
        write_sqe(fd, offset, buf_addr, buf_len, user_data).off == offset,
        write_sqe(fd, offset, buf_addr, buf_len, user_data).addr == buf_addr,
        write_sqe(fd, offset, buf_addr, buf_len, user_data).len == buf_len as u32,
        write_sqe(fd, offset, buf_addr, buf_len, user_data).user_data == user_data,
{
}

/// Reads and writes with the same arguments differ only in their opcode:
/// the same file, offset, buffer and tag go to the kernel either way.
pub proof fn lemma_read_write_differ_only_in_opcode(fd: i32, offset: u64, buf_addr: u64, buf_len: usize, user_data: u64)
    ensures
        read_sqe(fd, offset, buf_addr, buf_len, user_data).opcode != write_sqe(fd, offset, buf_addr, buf_len, user_data).opcode,
        (IoUringSqe { opcode: 0, ..read_sqe(fd, offset, buf_addr, buf_len, user_data) })
            == (IoUringSqe { opcode: 0, ..write_sqe(fd, offset, buf_addr, buf_len, user_data) }),
{
}

/// An accept request targets the socket it was asked for, keeps accepting
/// (multishot), and names no address buffer, for every fd and tag.
pub proof fn lemma_accept_request_targets_socket(fd: i32, user_data: u64)
    ensures
        accept_sqe(fd, user_data).opcode == 13,
        accept_sqe(fd, user_data).fd == fd,
        accept_sqe(fd, user_data).user_data == user_data,
        accept_sqe(fd, user_data).ioprio == 1,
        accept_sqe(fd, user_data).addr == 0,
{
}

/// A receive request targets the socket it was asked for, keeps receiving
/// (multishot) into buffers the kernel selects from group 0, for every fd and
/// tag.
pub proof fn lemma_recv_request_targets_socket(fd: i32, user_data: u64)
    ensures
        recv_sqe(fd, user_data).opcode == 27,
        recv_sqe(fd, user_data).fd == fd,
        recv_sqe(fd, user_data).user_data == user_data,
        recv_sqe(fd, user_data).ioprio == 2,
        recv_sqe(fd, user_data).flags == 32,
        recv_sqe(fd, user_data).addr == 0,
        recv_sqe(fd, user_data).buf_index == 0,
{
}

/// Two receive (or accept) requests on different sockets are different
/// requests: the socket is never dropped or replaced.
pub proof fn lemma_socket_requests_distinguish_sockets(a: i32, b: i32, user_data: u64)
    requires
        a != b,
    ensures
        recv_sqe(a, user_data).fd != recv_sqe(b, user_data).fd,
        accept_sqe(a, user_data).fd != accept_sqe(b, user_data).fd,
{
}

/// The no-op that a submission queue queues does nothing on any file: its
/// opcode is NOP, its fd is -1, and it carries the tag it was given.
pub proof fn lemma_nop_request(user_data: u64)
    ensures
        IoUringSqe::nop_spec(user_data).opcode == 0,
        IoUringSqe::nop_spec(user_data).fd == -1,
        IoUringSqe::nop_spec(user_data).user_data == user_data,
        IoUringSqe::nop_spec(user_data).len == 0,
{
}

} // verus!
