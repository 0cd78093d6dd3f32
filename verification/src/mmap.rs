use crate::error::RingError;
use core::marker::PhantomData;
use vstd::prelude::*;

verus! {

/// Whether `ptr`, as returned by `mmap`, encodes an error: it lies in the
/// top 4095 addresses, where `-errno` values land.
pub open spec fn is_err_addr(ptr: usize) -> bool {
    ptr >= usize::MAX - 4094
}

/// The `errno` that an error address encodes.
pub open spec fn err_of(ptr: usize) -> int {
    usize::MAX - ptr + 1
}

/// `a + b`, wrapping around the address space.
pub open spec fn wrap_add(a: usize, b: usize) -> int {
    if a + b > usize::MAX {
        a + b - usize::MAX - 1
    } else {
        a + b
    }
}

/// Whether `ptr`, as returned by `mmap`, encodes an error.
pub fn is_err(ptr: usize) -> (r: bool)
    ensures
        r == is_err_addr(ptr),
{
    ptr >= usize::MAX - 4094
}

/// The low 32 bits of an error address, as a signed value, are minus the
/// `errno` it encodes.
pub proof fn lemma_err_addr_low_bits(ptr: usize)
    requires
        is_err_addr(ptr),
    ensures
        ptr as i32 == -err_of(ptr),
{
    let d: u64 = (usize::MAX - ptr) as u64;
    let p: u64 = ptr as u64;
    if usize::BITS == 64 {
        assert(p + d == 0xffff_ffff_ffff_ffffu64);
        assert((p as i32) == -((d + 1) as i32)) by (bit_vector)
            requires
                p + d == 0xffff_ffff_ffff_ffffu64,
                d <= 4094u64,
        ;
    } else {
        assert(p + d == 0xffff_ffffu64);
        assert((p as i32) == -((d + 1) as i32)) by (bit_vector)
            requires
                p + d == 0xffff_ffffu64,
                d <= 4094u64,
        ;
    }
    assert(ptr as i32 == p as i32);
}

/// The `errno` that the address `ptr` encodes: the negation of its low 32
/// bits as a signed value. For an error address that is between 1 and 4095.
pub fn ptr_err(ptr: usize) -> (r: i32)
    requires
        is_err_addr(ptr) || ptr as i32 != i32::MIN,
    ensures
        r == -(ptr as i32),
        is_err_addr(ptr) ==> r == err_of(ptr) && 1 <= r <= 4095,
{
    let low = #[verifier::truncate] (ptr as i32);
    proof {
        if is_err_addr(ptr) {
            lemma_err_addr_low_bits(ptr);
        }
    }
    -low
}

/// A mapping of `len` values of type `T` at address `addr`.
#[derive(Debug)]
pub struct Buffer<T> {
    pub addr: usize,
    pub len: usize,
    pub marker: PhantomData<T>,
}

impl<T> Buffer<T> {
    /// Whether `ptr`, as returned by `mmap`, encodes an error.
    pub fn is_err(ptr: usize) -> (r: bool)
        ensures
            r == is_err_addr(ptr),
    {
        is_err(ptr)
    }

    /// The `errno` that the error address `ptr` encodes.
    pub fn ptr_err(ptr: usize) -> (r: i32)
        requires
            is_err_addr(ptr) || ptr as i32 != i32::MIN,
        ensures
            r == -(ptr as i32),
            is_err_addr(ptr) ==> r == err_of(ptr) && 1 <= r <= 4095,
    {
        ptr_err(ptr)
    }

    /// Bytes to map for `len` values.
    pub fn map_len(len: usize) -> (r: usize)
        requires
            vstd::layout::size_of::<T>() * len <= usize::MAX,
        ensures
            r == vstd::layout::size_of::<T>() * len,
    {
        core::mem::size_of::<T>() * len
    }

    /// The buffer of `len` values that `mmap` answered with `ptr`, or the
    /// error that `ptr` encodes.
    pub fn from_mapping(ptr: usize, len: usize) -> (r: Result<Buffer<T>, RingError>)
        ensures
            is_err_addr(ptr) ==> r == Err::<Buffer<T>, RingError>(RingError::Os(err_of(ptr) as i32)),
            !is_err_addr(ptr) ==> (r matches Ok(b) && b.addr == ptr && b.len == len),
    {
        if Self::is_err(ptr) {
            proof {
                lemma_err_addr_low_bits(ptr);
            }
            return Err(RingError::Os(Self::ptr_err(ptr)));
        }
        Ok(Buffer { addr: ptr, len, marker: PhantomData })
    }

    /// The address `offset` bytes into the buffer, wrapping.
    pub fn offset_as_mut(&self, offset: usize) -> (r: usize)
        ensures
            r == wrap_add(self.addr, offset),
    {
        self.addr.wrapping_add(offset)
    }

    /// The address `offset` bytes into the buffer, wrapping, and `len`.
    pub fn offset_as_mut_slice(&self, offset: usize, len: usize) -> (r: (usize, usize))
        ensures
            r.0 == wrap_add(self.addr, offset),
            r.1 == len,
    {
        (self.addr.wrapping_add(offset), len)
    }

    /// Whether dropping the buffer unmaps it: only a buffer with values is
    /// unmapped.
    pub fn needs_unmap(&self) -> (r: bool)
        ensures
            r == (self.len != 0),
    {
        self.len != 0
    }
}

/// A mapping of `len` bytes at address `addr`, owned by whoever holds it.
#[derive(Clone, Copy, Debug, PartialEq, Eq, Structural)]
pub struct MmapBuffer {
    pub addr: usize,
    pub len: usize,
}

impl MmapBuffer {
    /// The mapping of `len` bytes that `mmap` answered with `ptr`, or the
    /// error that `ptr` encodes.
    pub fn from_ptr_and_len(ptr: usize, len: usize) -> (r: Result<MmapBuffer, RingError>)
        ensures
            r == (if is_err_addr(ptr) {
                Err::<MmapBuffer, RingError>(RingError::Os(err_of(ptr) as i32))
            } else {
                Ok::<MmapBuffer, RingError>(MmapBuffer { addr: ptr, len })
            }),
    {
        if is_err(ptr) {
            proof {
                lemma_err_addr_low_bits(ptr);
            }
            return Err(RingError::Os(ptr_err(ptr)));
        }
        Ok(MmapBuffer { addr: ptr, len })
    }

    /// The address `offset` bytes into the mapping, wrapping.
    pub fn offset_as_mut(&self, offset: usize) -> (r: usize)
        ensures
            r == wrap_add(self.addr, offset),
    {
        self.addr.wrapping_add(offset)
    }

    /// The address `offset` bytes into the mapping, wrapping, and `len`.
    pub fn offset_as_mut_slice(&self, offset: usize, len: usize) -> (r: (usize, usize))
        ensures
            r.0 == wrap_add(self.addr, offset),
            r.1 == len,
    {
        (self.addr.wrapping_add(offset), len)
    }
}

} // verus!
