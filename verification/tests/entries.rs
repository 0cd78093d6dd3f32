use uring::complete_queue_entry::CompleteQueueEntry;
use uring::constants::{OpCode, Offset, RegisterCode};
use uring::entry::{Entry, OpType};
use uring::flags::{CQEFlags, SQEFlags, SetupFlags};
use uring::sqe::IoUringSqe;
use uring::submit_queue_entry::SubmitQueueEntry;

#[test]
fn entry_completion_keeps_multishot() {
    let mut once = Entry::new(OpType::Read, false);
    let cqe = CompleteQueueEntry { user_data: 1, res: 64, flags: CQEFlags::MORE };
    assert!(!once.complete(&cqe));
    assert_eq!(once.res, 64);
    assert!(once.flags.contains(CQEFlags::MORE));
    let mut many = Entry::new(OpType::Receive, true);
    assert!(many.complete(&CompleteQueueEntry { user_data: 2, res: -105, flags: 0 }));
    assert_eq!(many.res, -105);
    assert_eq!(many.op_type, OpType::Receive);
}

#[test]
fn prepared_entries() {
    let mut sqe = IoUringSqe::zeroed();
    sqe.flags = 9;
    sqe.prepare(OpCode::READ, 4, 100, 0x5000, (1usize << 32) + 7, 42);
    assert_eq!((sqe.opcode, sqe.fd, sqe.off, sqe.addr, sqe.len, sqe.user_data), (22, 4, 100, 0x5000, 7, 42));
    assert_eq!(sqe.flags, 0);

    let nop = IoUringSqe::nop(5);
    assert_eq!((nop.opcode, nop.fd, nop.user_data), (OpCode::NOP, -1, 5));

    let w = IoUringSqe::write(3, 8, 0x100, 16, 1);
    assert_eq!((w.opcode, w.len), (OpCode::WRITE, 16));

    let recv = IoUringSqe::recv(6, 1, 9);
    assert_eq!(recv.opcode, OpCode::RECV);
    assert_eq!(recv.addr, 0);
    assert_eq!(recv.ioprio, 2);
    assert_eq!(recv.flags, SQEFlags::BUFFER_SELECT);
    assert_eq!(recv.buf_index, 0);

    let acc = IoUringSqe::accept(6, 1, 9);
    assert_eq!((acc.opcode, acc.ioprio, acc.addr), (OpCode::ACCEPT, 1, 0));
}

#[test]
fn typed_entry_converts_field_for_field() {
    let e = SubmitQueueEntry {
        opcode: OpCode::from_bits_retain(OpCode::WRITE),
        flags: SQEFlags::from_bits_retain(SQEFlags::IO_LINK),
        fd: 3,
        len: 10,
        user_data: 99,
        ..Default::default()
    };
    let s = e.to_sqe();
    assert_eq!((s.opcode, s.flags, s.fd, s.len, s.user_data), (23, 4, 3, 10, 99));
}

#[test]
fn flag_sets() {
    let mut f = SetupFlags::empty();
    assert!(!f.contains(SetupFlags::SQPOLL));
    f.insert(SetupFlags::SQPOLL | SetupFlags::IOPOLL);
    assert!(f.contains(SetupFlags::SQPOLL));
    assert!(f.intersects(SetupFlags::IOPOLL | SetupFlags::CQE32));
    assert!(!f.contains(SetupFlags::IOPOLL | SetupFlags::CQE32));
    assert_eq!(f.bits(), 3);
    assert_eq!(Offset::from_bits_retain(Offset::SQES).bits(), 0x10000000);
    assert_eq!(RegisterCode::from_bits_retain(RegisterCode::REGISTER_PBUF_RING).bits(), 22);
    assert_eq!(OpCode::from_bits_retain(OpCode::LAST).bits(), 55);
}
