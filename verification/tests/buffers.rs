use uring::buffer::{BufSlot, BufferGroup};
use uring::config::Config;
use uring::error::RingError;
use uring::flags::{FeatureFlags, SetupFlags};
use uring::mmap::{is_err, ptr_err, Buffer, MmapBuffer};
use uring::params::IoUringParams;
use uring::recv_buffer::{IoUringBuf, RecvBuffer};
use uring::ring_math::next_power_of_two;
use uring::setup::{queue_init_ring, io_uring_mmap_sizes, io_uring_setup_ring_pointers, io_uring_unmap_rings, sqes_unmap_size};
use uring::syscall::{io_uring_enter_result, io_uring_register_result, io_uring_setup_result, EnterOutcome, EINTR};
use uring::IoUring;

/// What the kernel answers to a request for a ring of one entry.
fn one_entry_params() -> IoUringParams {
    let mut p = IoUringParams::default();
    p.sq_entries = 1;
    p.cq_entries = 2;
    p.features = FeatureFlags::from_bits_retain(FeatureFlags::SINGLE_MMAP | FeatureFlags::NODROP);
    p.sq_off.head = 0;
    p.sq_off.tail = 64;
    p.sq_off.ring_mask = 256;
    p.sq_off.ring_entries = 264;
    p.sq_off.flags = 276;
    p.sq_off.dropped = 272;
    p.sq_off.array = 352;
    p.cq_off.head = 128;
    p.cq_off.tail = 192;
    p.cq_off.ring_mask = 260;
    p.cq_off.ring_entries = 268;
    p.cq_off.overflow = 284;
    p.cq_off.cqes = 320;
    p.cq_off.flags = 280;
    p
}

#[test]
fn io_uring_mmap() {
    let p = one_entry_params();
    let sizes = io_uring_mmap_sizes(&p);
    assert_eq!(sizes.sq_ring_sz, 356);
    assert_eq!(sizes.cq_ring_sz, 356);
    assert_eq!(sizes.sqes_sz, 64);
    let ptrs = io_uring_setup_ring_pointers(&p, 0x10000, 0x10000);
    assert_eq!(ptrs.sq_ktail, 0x10000 + 64);
    assert_eq!(ptrs.cqes, 0x10000 + 320);
    assert_eq!(ptrs.cq_kflags, Some(0x10000 + 280));
}

#[test]
fn setup_io_uring_queue_init_params() {
    let params = IoUringParams::default();
    assert_eq!(IoUring::check_params(&params), Ok(()));
    let p = one_entry_params();
    let ring = IoUring::new(3, &p, 0, 1, 1, 2);
    println!("ring is {ring:#?}");
    assert_eq!(ring.sq.ring_entries, 1);
    assert_eq!(ring.cq.ring_entries, 2);
}

#[test]
fn ring_sizes_separate_mappings() {
    let mut p = one_entry_params();
    p.features = FeatureFlags::empty();
    p.flags = SetupFlags::from_bits_retain(SetupFlags::CQE32 | SetupFlags::SQE128);
    let sizes = io_uring_mmap_sizes(&p);
    assert_eq!(sizes.sq_ring_sz, 356);
    assert_eq!(sizes.cq_ring_sz, 320 + 2 * 32);
    assert_eq!(sizes.sqes_sz, 128);
    assert_eq!(sqes_unmap_size(p.flags, 4), 512);
    assert_eq!(sqes_unmap_size(SetupFlags::empty(), 4), 256);
    assert_eq!(uring::SubmitQueue::ring_size(&one_entry_params()), 356);
    assert_eq!(uring::SubmitQueue::sqes_size(&one_entry_params()), 64);
    assert_eq!(uring::CompleteQueue::ring_size(&one_entry_params()), 352);
    assert!(!uring::CompleteQueue::needs_own_mapping(&one_entry_params()));
    let mut q = one_entry_params();
    q.cq_off.flags = 0;
    assert_eq!(io_uring_setup_ring_pointers(&q, 0x10000, 0x20000).cq_kflags, None);
}

#[test]
fn unmap_decisions() {
    assert_eq!(io_uring_unmap_rings(0x1000, 356, 0x1000, 356), (true, false));
    assert_eq!(io_uring_unmap_rings(0x1000, 356, 0x2000, 352), (true, true));
    assert_eq!(io_uring_unmap_rings(0x1000, 0, 0, 352), (false, false));
}

#[test]
fn mmap_buffer_anonymous() {
    const LEN: usize = 1024;
    let mut memory = vec![0u8; LEN];
    let base = memory.as_ptr() as usize;
    let mmap_buffer = MmapBuffer::from_ptr_and_len(base, LEN).unwrap();
    assert_eq!(mmap_buffer.len, LEN);
    assert_eq!(mmap_buffer.offset_as_mut(0), base);

    let a = mmap_buffer.offset_as_mut(0) - base;
    for (idx, value) in memory[a..].iter_mut().enumerate() {
        *value = idx as _;
    }

    const OFFSET: usize = 233;
    let b = mmap_buffer.offset_as_mut(OFFSET) - base;
    for (idx, &value) in memory[b..b + LEN / 2].iter().enumerate() {
        assert_eq!(value, (idx + OFFSET) as u8);
    }

    let (c, c_len) = mmap_buffer.offset_as_mut_slice(0, LEN);
    assert_eq!(c - base, a);
    assert_eq!(c_len, LEN);
}

#[test]
fn mmap_error_addresses() {
    assert!(!is_err(0x7f00_0000_0000));
    assert!(!is_err(usize::MAX - 4095));
    assert!(is_err(usize::MAX - 4094));
    assert!(is_err(usize::MAX));
    // -ENOMEM
    let enomem = (-12i64) as usize;
    assert!(is_err(enomem));
    assert_eq!(ptr_err(enomem), 12);
    assert_eq!(ptr_err(usize::MAX), 1);
    assert_eq!(MmapBuffer::from_ptr_and_len(enomem, 64), Err(RingError::Os(12)));
    assert_eq!(Buffer::<u32>::from_mapping(enomem, 4).unwrap_err(), RingError::Os(12));
    let b = Buffer::<u32>::from_mapping(0x4000, 4).unwrap();
    assert_eq!((b.addr, b.len), (0x4000, 4));
    assert_eq!(Buffer::<u32>::map_len(4), 16);
    assert_eq!(b.offset_as_mut(8), 0x4008);
    assert!(b.needs_unmap());
    assert!(!Buffer::<u32>::from_mapping(0x4000, 0).unwrap().needs_unmap());
    assert!(Buffer::<u8>::is_err(usize::MAX));
    assert_eq!(Buffer::<u8>::ptr_err(usize::MAX - 3), 4);
}

#[test]
fn buffer_group() {
    let mut data = vec![0u8; 4 * 4096];
    let base = data.as_mut_ptr() as u64;
    let (group, descs, tail0) = BufferGroup::new(1, 4, 4096, base);
    assert_eq!(group.bgid, 1);
    assert_eq!(descs.len(), 4);
    for (i, d) in descs.iter().enumerate() {
        assert_eq!(d.addr, base + 4096 * i as u64);
        assert_eq!(d.len, 4096);
        assert_eq!(d.bid, i as u16 + 1);
    }
    assert_eq!(tail0, 4);
    assert_eq!(descs[0].tail, 0);
    assert_eq!(group.iovec(), (base, 4 * 4096));
    assert_eq!(group.addr(3), base + 2 * 4096);
    // Recycling buffer 3 at tail 6 writes slot 2 and moves the tail to 7.
    let (slot, desc, tail) = group.recycle(6, 3);
    assert_eq!(slot, 2);
    assert_eq!(desc, BufSlot { addr: descs[2].addr, len: descs[2].len, bid: 3 });
    assert_eq!(tail, 7);
    assert_eq!(group.recycle(u16::MAX, 1).2, 0);
}

#[test]
fn recv_buffer_setup_and_recycle() {
    let config = Config::new(64);
    assert_eq!(config.recv_buffer_count, 256);
    assert_eq!(config.recv_buffer_size, 4096);
    assert_eq!(RecvBuffer::ring_size(&config), 256 * 16);
    assert_eq!(RecvBuffer::data_size(&config), 256 * 4096);
    let base = 0x10_0000u64;
    let setup = RecvBuffer::new(&config, base);
    assert_eq!(setup.recv_buffer.index_mark, 255);
    assert_eq!(setup.kernel_tail, 4096);
    assert_eq!(setup.current_tail, 4096);
    assert_eq!(setup.descriptors.len(), 256);
    assert_eq!(setup.descriptors[10].addr, base + 10 * 4096);
    assert_eq!(setup.descriptors[10].bid, 11);
    let rb = setup.recv_buffer;
    assert_eq!(rb.addr(11), base + 10 * 4096);
    let (offset, desc, next) = rb.recycle(4096 + 3, 11);
    assert_eq!(offset, 3 * 16);
    assert_eq!(desc, BufSlot { addr: base + 10 * 4096, len: 4096, bid: 11 });
    assert_eq!(next, 4100);

    let odd = Config { entries: 8, recv_buffer_size: 100, recv_buffer_count: 5 };
    let s = RecvBuffer::new(&odd, 0);
    assert_eq!(s.recv_buffer.index_mark, 7);
    assert_eq!(s.descriptors[4], IoUringBuf { addr: 400, len: 100, bid: 5, tail: 0 });
    // Five buffers get a mark of 7: tail 7 lands past the ring's 80 bytes.
    assert_eq!(s.recv_buffer.recycle(7, 1).0, 112);
    assert!(112 + 16 > RecvBuffer::ring_size(&odd));
}

#[test]
fn next_power_of_two_values() {
    assert_eq!(next_power_of_two(0), 1);
    assert_eq!(next_power_of_two(1), 1);
    assert_eq!(next_power_of_two(5), 8);
    assert_eq!(next_power_of_two(256), 256);
    assert_eq!(next_power_of_two(257), 512);
    assert_eq!(next_power_of_two(0x8000_0000), 0x8000_0000);
}

#[test]
fn syscall_results() {
    assert_eq!(io_uring_setup_result(5, 0), Ok(5));
    assert_eq!(io_uring_setup_result(-1, 22), Err(RingError::Os(22)));
    assert_eq!(io_uring_enter_result(-1, EINTR), EnterOutcome::Retry);
    assert_eq!(io_uring_enter_result(-1, 9), EnterOutcome::Failed(9));
    assert_eq!(io_uring_enter_result(16, 0), EnterOutcome::Entered(16));
    assert_eq!(io_uring_register_result(0, 0), Ok(0));
    assert_eq!(io_uring_register_result(-1, 14), Err(RingError::Os(14)));
}

#[test]
fn buf_reg_and_config() {
    let config = Config::new(1024);
    assert_eq!(config.entries, 1024);
    let p = one_entry_params();
    let ring = IoUring::new(3, &p, 0, 1, 1, 2);
    let reg = ring.setup_buffer_ring(0x9000, 64, 1);
    assert_eq!((reg.ring_addr, reg.ring_entries, reg.bgid, reg.flags, reg.resv), (0x9000, 64, 1, 0, [0, 0, 0]));
}

#[test]
fn setup_with_big_entries() {
    let mut p = one_entry_params();
    p.flags = SetupFlags::from_bits_retain(SetupFlags::SQE128 | SetupFlags::CQE32);
    let (ring, array) = queue_init_ring(3, &p, 0, 1, 1, 2);
    assert_eq!(ring.flags.bits(), SetupFlags::SQE128 | SetupFlags::CQE32);
    assert_eq!(ring.features.bits(), p.features.bits());
    assert_eq!((ring.sq.ring_entries, ring.cq.ring_entries), (1, 2));
    assert_eq!(array, vec![0]);
    let (_, array4) = queue_init_ring(3, &p, 3, 4, 7, 8);
    assert_eq!(array4, vec![0, 1, 2, 3]);
}
