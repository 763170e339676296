//! Checks and initializers that kernel code writes inline.
use vstd::prelude::*;
use crate::string::UNICODE_STRING;
use crate::sys::base::{APC_LEVEL, HANDLE, KIRQL, NTSTATUS, OBJECT_ATTRIBUTES, PVOID, STATUS_UNSUCCESSFUL, ULONG};

verus! {

/// The size in bytes of an `OBJECT_ATTRIBUTES` record in the kernel's
/// layout: six fields, four of them pointer-sized, padded to pointer
/// alignment.
pub open spec fn object_attributes_size() -> ULONG {
    if usize::BITS == 64 { 48 } else { 24 }
}

/// The check that opens pageable code: code that may be paged out must not
/// run above `APC_LEVEL`. Returns the status to return at once,
/// `STATUS_UNSUCCESSFUL`, where the interrupt request level `irql` is above
/// `APC_LEVEL`, and `None` where the code may go on.
pub fn PAGED_CODE(irql: KIRQL) -> (early: Option<NTSTATUS>)
    ensures
        early == (if irql > APC_LEVEL { Some(STATUS_UNSUCCESSFUL) } else { None::<NTSTATUS> }),
{
    if irql > APC_LEVEL {
        Some(STATUS_UNSUCCESSFUL)
    } else {
        None
    }
}

/// Fills in object attributes: the record's size, the root directory `r`,
/// the attributes `a`, the security descriptor `s`, no quality of service,
/// and the name `n` in the kernel's string layout.
pub fn InitializeObjectAttributes<'a>(
    p: &mut OBJECT_ATTRIBUTES<'a>,
    n: &'a UNICODE_STRING,
    a: ULONG,
    r: HANDLE,
    s: PVOID,
)
    ensures
        final(p).Length == object_attributes_size(),
        final(p).RootDirectory == r,
        final(p).Attributes == a,
        final(p).SecurityDescriptor == s,
        final(p).SecurityQualityOfService == 0,
        final(p).ObjectName is Some,
        final(p).ObjectName->0.Length == n.Length,
        final(p).ObjectName->0.MaximumLength == n.MaximumLength,
        final(p).ObjectName->0.Buffer@ == n.ptr@,
{
    let name = n.as_base_unicode();
    p.Length = if usize::BITS == 64 { 48 } else { 24 };
    p.RootDirectory = r;
    p.Attributes = a;
    p.ObjectName = Some(name);
    p.SecurityDescriptor = s;
    p.SecurityQualityOfService = 0;
}

} // verus!
