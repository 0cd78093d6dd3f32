use crate::error::RingError;
use vstd::prelude::*;

verus! {

/// The `errno` of a system call interrupted by a signal.
pub const EINTR: i32 = 4;

/// What to do after one `io_uring_enter` system call.
#[derive(Clone, Copy, Debug, PartialEq, Eq, Structural)]
pub enum EnterOutcome {
    /// A signal interrupted the call: make it again.
    Retry,
    /// The call failed with this `errno`.
    Failed(i32),
    /// The call consumed this many submission entries.
    Entered(u32),
}

/// Reads the answer of `io_uring_setup`: a negative return is a failure
/// with the thread's `errno`; anything else is the ring's file descriptor.
pub fn io_uring_setup_result(ret: i64, errno: i32) -> (r: Result<i32, RingError>)
    requires
        ret <= i32::MAX,
    ensures
        r == (if ret < 0 {
            Err::<i32, RingError>(RingError::Os(errno))
        } else {
            Ok::<i32, RingError>(ret as i32)
        }),
{
    if ret < 0 {
        Err(RingError::Os(errno))
    } else {
        Ok(ret as i32)
    }
}

/// Reads the answer of `io_uring_enter`: a negative return is retried when a
/// signal interrupted the call, and a failure with the thread's `errno`
/// otherwise; anything else is the number of entries consumed.
pub fn io_uring_enter_result(ret: i64, errno: i32) -> (r: EnterOutcome)
    requires
        ret <= u32::MAX,
    ensures
        r == (if ret < 0 {
            if errno == EINTR {
                EnterOutcome::Retry
            } else {
                EnterOutcome::Failed(errno)
            }
        } else {
            EnterOutcome::Entered(ret as u32)
        }),
{
    if ret < 0 {
        if errno == EINTR {
            EnterOutcome::Retry
        } else {
            EnterOutcome::Failed(errno)
        }
    } else {
        EnterOutcome::Entered(ret as u32)
    }
}

/// Reads the answer of `io_uring_register`: a negative return is a failure
/// with the thread's `errno`; anything else is the call's result.
pub fn io_uring_register_result(ret: i64, errno: i32) -> (r: Result<u32, RingError>)
    requires
        ret <= u32::MAX,
    ensures
        r == (if ret < 0 {
            Err::<u32, RingError>(RingError::Os(errno))
        } else {
            Ok::<u32, RingError>(ret as u32)
        }),
{
    if ret < 0 {
        Err(RingError::Os(errno))
    } else {
        Ok(ret as u32)
    }
}

} // verus!
