pub mod acceptor;
pub mod buffer;
pub mod complete_queue;
pub mod complete_queue_entry;
pub mod config;
pub mod constants;
pub mod entry;
pub mod error;
pub mod flags;
pub mod io_uring;
pub mod mmap;
pub mod params;
pub mod recv_buffer;
pub mod ring_math;
pub mod setup;
pub mod sqe;
pub mod submit_queue;
pub mod submit_queue_entry;
pub mod syscall;

pub use acceptor::NullAcceptor;
pub use buffer::BufferGroup;
pub use complete_queue::CompleteQueue;
pub use complete_queue_entry::CompleteQueueEntry;
pub use config::Config;
pub use entry::{Entry, OpType};
pub use error::RingError;
pub use io_uring::IoUring;
pub use mmap::{Buffer, MmapBuffer};
pub use params::IoUringParams;
pub use recv_buffer::RecvBuffer;
pub use sqe::IoUringSqe;
pub use submit_queue::SubmitQueue;
pub use submit_queue_entry::SubmitQueueEntry;
