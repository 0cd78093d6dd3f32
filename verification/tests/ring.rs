use uring::complete_queue::CqCursor;
use uring::constants::OpCode;
use uring::entry::{Entry, OpType};
use uring::error::RingError;
use uring::flags::{EnterFlags, FeatureFlags, SQFlags, SetupFlags};
use uring::params::IoUringParams;
use uring::sqe::IoUringSqe;
use uring::submit_queue_entry::SubmitQueueEntry;
use uring::syscall::{io_uring_enter_result, EnterOutcome};
use uring::{CompleteQueue, CompleteQueueEntry, Config, IoUring, SubmitQueue};

/// A stand-in for the kernel's side of one ring: the memory it shares with
/// the user, and the completions it posts for what it consumes.
struct Kernel {
    sq_khead: u32,
    sq_ktail: u32,
    sqes: Vec<IoUringSqe>,
    cq_khead: u32,
    cq_ktail: u32,
    cqes: Vec<CompleteQueueEntry>,
    cq_mask: u32,
}

impl Kernel {
    fn new(entries: u32) -> Kernel {
        Kernel {
            sq_khead: 0,
            sq_ktail: 0,
            sqes: vec![IoUringSqe::zeroed(); entries as usize],
            cq_khead: 0,
            cq_ktail: 0,
            cqes: vec![CompleteQueueEntry::default(); 2 * entries as usize],
            cq_mask: 2 * entries - 1,
        }
    }

    /// Consumes up to `to_submit` published entries, completing each with
    /// `res`, and answers how many it consumed.
    fn enter(&mut self, sq_mask: u32, to_submit: u32, res: i32) -> i64 {
        let mut n = 0u32;
        while n < to_submit && self.sq_khead != self.sq_ktail {
            let sqe = self.sqes[(self.sq_khead & sq_mask) as usize];
            let slot = (self.cq_ktail & self.cq_mask) as usize;
            self.cqes[slot] = CompleteQueueEntry { user_data: sqe.user_data, res, flags: 0 };
            self.cq_ktail = self.cq_ktail.wrapping_add(1);
            self.sq_khead += 1;
            n += 1;
        }
        n as i64
    }

    /// Reads every posted completion, as a pass over the completion ring does.
    fn reap(&mut self, cq: &CompleteQueue) -> Vec<CompleteQueueEntry> {
        let mut cursor = CompleteQueue::start(self.cq_khead);
        let mut seen = Vec::new();
        while let Some(slot) = cq.next_cqe(&mut cursor, self.cq_ktail) {
            seen.push(self.cqes[slot]);
        }
        self.cq_khead = cursor.head;
        assert_eq!(cursor.consumed as usize, seen.len());
        seen
    }
}

fn default_params(entries: u32) -> IoUringParams {
    let mut p = IoUringParams::default();
    p.sq_entries = entries;
    p.cq_entries = 2 * entries;
    p.features = FeatureFlags::from_bits_retain(FeatureFlags::SINGLE_MMAP);
    p
}

fn ring(entries: u32) -> IoUring {
    let p = default_params(entries);
    IoUring::new(3, &p, entries - 1, entries, 2 * entries - 1, 2 * entries)
}

fn publish(ring: &mut IoUring, kernel: &mut Kernel) -> u32 {
    if let Some(tail) = ring.sq.flush() {
        kernel.sq_ktail = tail;
    }
    ring.sq.in_flight(kernel.sq_khead)
}

fn submit(ring: &IoUring, kernel: &mut Kernel, submitted: u32, wait_nr: u32, res: i32) -> u32 {
    match ring.submit(submitted, wait_nr, SQFlags::empty()) {
        None => submitted,
        Some(args) => {
            let ret = kernel.enter(ring.sq.ring_mask, args.to_submit, res);
            match io_uring_enter_result(ret, 0) {
                EnterOutcome::Entered(n) => n,
                other => panic!("unexpected outcome {:?}", other),
            }
        }
    }
}

#[test]
fn get_sqe() {
    let entries = 128;
    let mut ring = ring(entries);
    for _ in 0..entries {
        assert!(ring.sq.get_sqe(0).is_ok());
    }
    let result = ring.sq.get_sqe(0);
    assert!(result.is_err());
    assert_eq!(result, Err(RingError::SqFull));
}

#[test]
fn io_uring_io_uring_queue_init_params() {
    let params = IoUringParams::default();
    assert_eq!(IoUring::check_params(&params), Ok(()));
    let ring = ring(4096);
    println!("ring is {ring:#?}");
}

#[test]
fn get_sqe_and_submit() {
    let mut ring = ring(4096);
    let mut kernel = Kernel::new(4096);

    let entries = 16;
    for i in 0..entries {
        let (slot, entry, sqe) = ring.nop(kernel.sq_khead, 1, i as u64).unwrap();
        assert_eq!(entry.op_type, OpType::Nop);
        assert_eq!((sqe.opcode, sqe.fd, sqe.addr, sqe.user_data), (OpCode::NOP, ring.ring_fd, 1, i as u64));
        kernel.sqes[slot] = sqe;
    }
    assert_eq!(publish(&mut ring, &mut kernel), entries);

    let submitted = submit(&ring, &mut kernel, entries, entries, 0);
    assert_eq!(entries, submitted);

    let mut index = 0;
    let seen = kernel.reap(&ring.cq);
    for _ in &seen {
        index += 1;
    }
    let consumed = seen.len() as u32;
    assert_eq!(consumed, submitted);
    assert_eq!(index, 16);
}

#[test]
fn do_read() {
    let mut ring = ring(4096);
    let mut kernel = Kernel::new(4096);
    const LEN: usize = 64;
    let buf = vec![0u8; LEN];

    let (slot, mut entry, sqe) = ring.prep_read(kernel.sq_khead, 7, 0, buf.as_ptr() as u64, buf.len(), 1).unwrap();
    assert_eq!(sqe.opcode, OpCode::READ);
    kernel.sqes[slot] = sqe;
    assert_eq!(kernel.sqes[slot].len, LEN as u32);
    assert_eq!(publish(&mut ring, &mut kernel), 1);

    let submitted = submit(&ring, &mut kernel, 1, 1, LEN as i32);
    assert_eq!(submitted, 1);

    let seen = kernel.reap(&ring.cq);
    for cqe in &seen {
        let keep = entry.complete(cqe);
        assert!(!keep);
        assert_eq!(entry.res, LEN as i32);
    }
    assert_eq!(seen.len(), 1);
}

#[test]
fn do_read_and_write() {
    let mut ring = ring(4096);
    let mut kernel = Kernel::new(4096);
    const LEN: usize = 64;
    let reader_buf = vec![0u8; LEN];
    let writer_buf = vec![1u8; LEN];

    let (wslot, wentry, wsqe) = ring.prep_write(kernel.sq_khead, 9, 0, writer_buf.as_ptr() as u64, LEN, 1).unwrap();
    kernel.sqes[wslot] = wsqe;
    let (rslot, rentry, rsqe) = ring.prep_read(kernel.sq_khead, 8, 0, reader_buf.as_ptr() as u64, LEN, 2).unwrap();
    kernel.sqes[rslot] = rsqe;
    assert_eq!((wsqe.opcode, rsqe.opcode), (OpCode::WRITE, OpCode::READ));
    assert_ne!(wslot, rslot);
    assert_eq!(publish(&mut ring, &mut kernel), 2);

    let submitted = submit(&ring, &mut kernel, 2, 2, LEN as i32);
    assert_eq!(submitted, 2);

    let mut entries = [wentry, rentry];
    let seen = kernel.reap(&ring.cq);
    for cqe in &seen {
        let entry: &mut Entry = &mut entries[(cqe.user_data - 1) as usize];
        entry.complete(cqe);
        assert_eq!(entry.res, LEN as i32);
    }
    assert_eq!(seen.len(), 2);
    assert_eq!(entries[1].op_type, OpType::Read);
}

#[test]
fn accept() {
    let mut ring = ring(4096);
    let mut kernel = Kernel::new(4096);
    let (slot, mut entry, sqe) = ring.prep_accept(kernel.sq_khead, 5, 1, 77).unwrap();
    assert!(entry.multishot);
    kernel.sqes[slot] = sqe;
    assert_eq!(kernel.sqes[slot].addr, 0);
    assert_eq!(kernel.sqes[slot].ioprio, 1);
    publish(&mut ring, &mut kernel);
    let submitted = submit(&ring, &mut kernel, 1, 0, 10);
    assert_eq!(submitted, 1);

    // The one accept request keeps completing: post two more connections.
    for round in 0..3 {
        if round > 0 {
            for fd in 0..2 {
                let at = (kernel.cq_ktail & kernel.cq_mask) as usize;
                kernel.cqes[at] = CompleteQueueEntry { user_data: 77, res: 20 + fd, flags: 2 };
                kernel.cq_ktail += 1;
            }
        }
        let seen = kernel.reap(&ring.cq);
        for cqe in &seen {
            assert!(cqe.res >= 0);
            assert_eq!(cqe.user_data, 77);
            assert!(entry.complete(cqe));
            assert_eq!(entry.op_type, OpType::Accept);
        }
        assert_eq!(seen.len(), if round == 0 { 1 } else { 2 });
    }
}

#[test]
fn io_uring_io_uring_setup() {
    let config = Config::new(1024);
    let ring = ring(config.entries);
    let mut kernel = Kernel::new(config.entries);
    assert!(ring.submit(0, 0, SQFlags::empty()).is_none());
    assert_eq!(submit(&ring, &mut kernel, 0, 0, 0), 0);
}

#[test]
fn lib_io_uring_setup() {
    let config = Config::new(1024);
    let p = default_params(config.entries);
    let mut sq = SubmitQueue::new(&p, config.entries - 1, config.entries);
    let cq = CompleteQueue::new(&p, 2 * config.entries - 1, 2 * config.entries);
    let mut kernel = Kernel::new(config.entries);

    let slot = sq.get_sqe(kernel.sq_khead).unwrap();
    let sqe = SubmitQueueEntry { opcode: OpCode::from_bits_retain(OpCode::NOP), ..Default::default() };
    kernel.sqes[slot] = sqe.to_sqe();

    if let Some(tail) = sq.flush() {
        kernel.sq_ktail = tail;
    }
    assert_eq!(sq.in_flight(kernel.sq_khead), 1);

    let reap = CompleteQueue::reap(1);
    assert_eq!(reap.min_complete, 1);
    assert!(reap.flags.contains(EnterFlags::GETEVENTS));
    kernel.enter(sq.ring_mask, 1, 0);

    let seen = kernel.reap(&cq);
    for cqe in &seen {
        println!("cqe: {cqe:?}");
    }
    assert_eq!(seen.len(), 1);
}

#[test]
fn io_uring_multithreads() {
    let config = Config::new(1024);
    let p = default_params(config.entries);
    let mut sq = SubmitQueue::new(&p, config.entries - 1, config.entries);
    let cq = CompleteQueue::new(&p, 2 * config.entries - 1, 2 * config.entries);
    let mut kernel = Kernel::new(config.entries);

    const SUBMIT_COUNT: u32 = 1000000;
    const BATCH_SIZE: u32 = 1000;
    let mut reap_count = 0u32;
    for i in 1..=SUBMIT_COUNT {
        let slot = sq.get_sqe(kernel.sq_khead).unwrap();
        kernel.sqes[slot] =
            SubmitQueueEntry { opcode: OpCode::from_bits_retain(OpCode::NOP), ..Default::default() }.to_sqe();
        if i % BATCH_SIZE == 0 {
            if let Some(tail) = sq.flush() {
                kernel.sq_ktail = tail;
            }
            assert_eq!(sq.in_flight(kernel.sq_khead), BATCH_SIZE);
            kernel.enter(sq.ring_mask, BATCH_SIZE, 0);
            reap_count += kernel.reap(&cq).len() as u32;
        }
    }
    assert_eq!(reap_count, SUBMIT_COUNT);
}

#[test]
fn sqe_check_io_uring_sqe_size() {
    assert_eq!(std::mem::size_of::<IoUringSqe>(), 64);
}

#[test]
fn submit_queue_entry_check_io_uring_sqe_size() {
    assert_eq!(std::mem::size_of::<SubmitQueueEntry>(), 64);
}

#[test]
fn cq_pass_wraps_around_positions() {
    let cq = CompleteQueue { ring_mask: 7, ring_entries: 8 };
    let mut cursor = CqCursor { head: u32::MAX - 1, consumed: 0 };
    let mut slots = Vec::new();
    while let Some(slot) = cq.next_cqe(&mut cursor, 2) {
        slots.push(slot);
    }
    assert_eq!(slots, vec![6, 7, 0, 1]);
    assert_eq!(cursor, CqCursor { head: 2, consumed: 4 });
    assert_eq!(cq.next_cqe(&mut cursor, 2), None);
}

#[test]
fn sq_slots_cycle_and_refill() {
    let p = default_params(4);
    let mut sq = SubmitQueue::new(&p, 3, 4);
    let slots: Vec<usize> = (0..4).map(|_| sq.get_sqe(0).unwrap()).collect();
    assert_eq!(slots, vec![0, 1, 2, 3]);
    assert_eq!(sq.get_sqe(0), Err(RingError::SqFull));
    assert_eq!(sq.sqe_tail, 4);
    assert_eq!(sq.flush(), Some(4));
    assert_eq!(sq.flush(), None);
    assert_eq!(sq.in_flight(1), 3);
    // The kernel consumed one entry: its slot is handed out again.
    assert_eq!(sq.get_sqe(1), Ok(0));
    assert_eq!(sq.get_sqe(1), Err(RingError::SqFull));
}

#[test]
fn sqpoll_orders_and_wakeup() {
    let mut p = default_params(8);
    p.flags = SetupFlags::from_bits_retain(SetupFlags::SQPOLL);
    let sq = SubmitQueue::new(&p, 7, 8);
    assert_eq!(sq.head_order(), uring::error::MemOrder::Acquire);
    assert_eq!(sq.tail_order(), uring::error::MemOrder::Release);

    let mut flags = EnterFlags::empty();
    assert!(!sq.needs_enter(3, SQFlags::empty(), &mut flags));
    assert_eq!(flags.bits(), 0);
    assert!(sq.needs_enter(3, SQFlags::from_bits_retain(SQFlags::NEED_WAKEUP), &mut flags));
    assert_eq!(flags.bits(), EnterFlags::SQ_WAKEUP);
    let mut none = EnterFlags::empty();
    assert!(!sq.needs_enter(0, SQFlags::from_bits_retain(SQFlags::NEED_WAKEUP), &mut none));
    assert_eq!(none.bits(), 0);

    let plain = SubmitQueue::new(&default_params(8), 7, 8);
    assert_eq!(plain.head_order(), uring::error::MemOrder::Relaxed);
    let mut f = EnterFlags::empty();
    assert!(plain.needs_enter(1, SQFlags::empty(), &mut f));
    assert_eq!(f.bits(), 0);
}

#[test]
fn submit_decisions() {
    let mut r = ring(8);
    // Nothing to do: no call.
    assert!(r.submit(0, 0, SQFlags::empty()).is_none());
    // Entries to submit: a call without waiting.
    let a = r.submit(2, 0, SQFlags::empty()).unwrap();
    assert_eq!((a.to_submit, a.min_complete, a.flags.bits()), (2, 0, 0));
    // Waiting: completions are asked for.
    let a = r.submit(0, 3, SQFlags::empty()).unwrap();
    assert_eq!((a.to_submit, a.min_complete, a.flags.bits()), (0, 3, EnterFlags::GETEVENTS));
    // Overflowed completions need flushing.
    let k = SQFlags::from_bits_retain(SQFlags::CQ_OVERFLOW);
    assert!(r.cq_needs_flush(k));
    let a = r.submit(0, 0, k).unwrap();
    assert_eq!(a.flags.bits(), EnterFlags::GETEVENTS);
    // A polled ring whose thread sleeps is woken, and asked for completions.
    r.sq.flags = SetupFlags::from_bits_retain(SetupFlags::SQPOLL);
    let a = r.submit(1, 1, SQFlags::from_bits_retain(SQFlags::NEED_WAKEUP)).unwrap();
    assert_eq!(a.flags.bits(), EnterFlags::SQ_WAKEUP | EnterFlags::GETEVENTS);
    // I/O polling always needs a call.
    r.flags = SetupFlags::from_bits_retain(SetupFlags::IOPOLL);
    assert!(r.cq_needs_enter(SQFlags::empty()));
}

#[test]
fn setup_flag_checks() {
    let mut p = IoUringParams::default();
    p.flags = SetupFlags::from_bits_retain(SetupFlags::REGISTERED_FD_ONLY);
    assert_eq!(IoUring::check_params(&p), Err(RingError::InvalidInput));
    p.flags = SetupFlags::from_bits_retain(SetupFlags::SQPOLL);
    assert_eq!(IoUring::check_params(&p), Ok(()));
}

#[test]
fn recv_request_and_full_ring() {
    let mut r = ring(2);
    let (slot, entry, sqe) = r.prep_recv(0, 6, 1, 9).unwrap();
    assert_eq!(slot, 0);
    assert!(entry.multishot);
    assert_eq!(entry.op_type, OpType::Receive);
    assert_eq!((sqe.opcode, sqe.ioprio, sqe.addr, sqe.user_data), (OpCode::RECV, 2, 0, 9));
    assert!(r.nop(0, 1, 2).is_ok());
    assert_eq!(r.prep_read(0, 3, 0, 0x100, 8, 3).unwrap_err(), RingError::SqFull);
    assert_eq!(r.sq.sqe_tail, 2);
}

#[test]
fn polled_relaxed_orders() {
    let mut p = default_params(8);
    p.flags = SetupFlags::from_bits_retain(SetupFlags::SQPOLL);
    let sq = SubmitQueue::new(&p, 7, 8);
    assert_eq!(sq.polled_relaxed_head_order(), uring::error::MemOrder::Relaxed);
    assert_eq!(sq.polled_relaxed_tail_order(), uring::error::MemOrder::Relaxed);
    let plain = SubmitQueue::new(&default_params(8), 7, 8);
    assert_eq!(plain.polled_relaxed_head_order(), uring::error::MemOrder::Acquire);
    assert_eq!(plain.polled_relaxed_tail_order(), uring::error::MemOrder::Release);
}
