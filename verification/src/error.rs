use vstd::prelude::*;

verus! {

/// Why a ring operation failed.
#[derive(Clone, Copy, Debug, PartialEq, Eq)]
pub enum RingError {
    /// Every submission slot is taken: the kernel has not consumed enough
    /// entries yet.
    SqFull,
    /// The setup parameters ask for something that cannot work.
    InvalidInput,
    /// The kernel refused, with this `errno`.
    Os(i32),
}

/// The memory ordering with which a value shared with the kernel is loaded
/// or stored.
#[derive(Clone, Copy, Debug, PartialEq, Eq)]
pub enum MemOrder {
    Relaxed,
    Acquire,
    Release,
}

} // verus!
