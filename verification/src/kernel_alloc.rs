//! The global allocator of kernel code: each allocation is a request to the
//! paged pool, tagged with the driver's pool tag.
use vstd::prelude::*;
use crate::sys::base::{SIZE_T, ULONG, ULONG64};

verus! {

/// The tag that marks this driver's pool allocations: the bytes `TSUR`, in
/// memory order, read as a little-endian 32-bit value.
pub const POOL_TAG: u32 = 0x5255_5354;

/// Allocate from paged pool.
pub const POOL_FLAG_PAGED: ULONG64 = 0x0000_0000_0000_0100;

/// The little-endian 32-bit value of four bytes.
pub open spec fn tag_value(b0: u8, b1: u8, b2: u8, b3: u8) -> int {
    b0 + 0x100 * b1 + 0x1_0000 * b2 + 0x100_0000 * b3
}

/// The pool tag is the bytes `T`, `S`, `U`, `R` in memory order.
pub proof fn law_pool_tag_bytes()
    ensures
        POOL_TAG as int == tag_value('T' as u8, 'S' as u8, 'U' as u8, 'R' as u8),
{
}

/// The parameters of one pool allocation.
#[derive(Clone, Copy, Debug, PartialEq, Eq, Structural)]
pub struct PoolRequest {
    pub Flags: ULONG64,
    pub NumberOfBytes: SIZE_T,
    pub Tag: ULONG,
}

/// The allocator that serves Rust allocations from the kernel's pool.
pub struct KernelAlloc;

impl KernelAlloc {
    /// The pool request for an allocation of `size` bytes: paged pool, the
    /// size itself, and the driver's tag.
    pub fn pool_request(&self, size: usize) -> (r: PoolRequest)
        ensures
            r == (PoolRequest { Flags: POOL_FLAG_PAGED, NumberOfBytes: size, Tag: POOL_TAG }),
    {
        PoolRequest { Flags: POOL_FLAG_PAGED, NumberOfBytes: size, Tag: POOL_TAG }
    }
}

/// The bug-check code with which an unrecoverable error stops the system.
pub const BUGCHECK_CODE: u32 = 0xDEAD_0000;

/// The code and the four parameters of a bug check.
#[derive(Clone, Copy, Debug, PartialEq, Eq, Structural)]
pub struct BugCheck {
    pub Code: u32,
    pub Parameter1: u32,
    pub Parameter2: u32,
    pub Parameter3: u32,
    pub Parameter4: u32,
}

/// The bug check for an unrecoverable error whose message text is at
/// `message_address`: `BUGCHECK_CODE`, with the low 32 bits of the address
/// as the first parameter and zero for the others.
pub fn unrecoverable_error_bugcheck(message_address: usize) -> (b: BugCheck)
    ensures
        b == (BugCheck {
            Code: BUGCHECK_CODE,
            Parameter1: message_address as u32,
            Parameter2: 0,
            Parameter3: 0,
            Parameter4: 0,
        }),
{
    BugCheck {
        Code: BUGCHECK_CODE,
        Parameter1: message_address as u32,
        Parameter2: 0,
        Parameter3: 0,
        Parameter4: 0,
    }
}

} // verus!
