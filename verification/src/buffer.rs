//! Device-buffer access modes and transfer sizing.
//!
//! A device buffer is a non-owning handle into caller-owned host memory (the
//! device is told to use the host pointer directly), tagged with an access
//! mode. Allocating the buffer and submitting the non-blocking transfers are
//! unsafe FFI calls performed by the embedding program; the flag values and
//! the byte size of a full-region transfer are computed and checked here.

use vstd::prelude::*;

verus! {

/// The access mode a device buffer is allocated with.
#[derive(Clone, Copy, PartialEq, Eq, Structural, Debug)]
pub enum MemMode {
    Read,
    Write,
    ReadWrite,
}

/// The memory-flag bit that tells the device to use the caller's host
/// memory directly instead of copying at allocation time.
pub open spec fn spec_use_host_ptr_flag() -> u64 {
    1u64 << 3
}

impl MemMode {
    /// The OpenCL access-mode flag bit of this mode.
    pub open spec fn spec_access_flag(self) -> u64 {
        match self {
            MemMode::Read => 1u64 << 2,
            MemMode::Write => 1u64 << 1,
            MemMode::ReadWrite => 1u64 << 0,
        }
    }

    /// The full memory-flag word a buffer of this mode is allocated with:
    /// the access-mode bit together with the use-host-pointer bit.
    pub fn allocation_flags(self) -> (r: u64)
        ensures
            r == (self.spec_access_flag() | spec_use_host_ptr_flag()),
    {
        let access: u64 = match self {
            MemMode::Read => 1u64 << 2,
            MemMode::Write => 1u64 << 1,
            MemMode::ReadWrite => 1u64 << 0,
        };
        access | (1u64 << 3)
    }
}

/// The byte length of a full transfer of `len` elements of `elem_size`
/// bytes each, or `None` where that exceeds the address space.
pub fn transfer_byte_len(len: usize, elem_size: usize) -> (r: Option<usize>)
    ensures
        r matches Some(n) ==> n == len * elem_size,
        r is None ==> len * elem_size > usize::MAX,
{
    len.checked_mul(elem_size)
}

} // verus!
