//! Basic Windows kernel types, under the LLP64 data model of Windows.
use vstd::prelude::*;

verus! {

/// C `unsigned char`.
pub type UCHAR = cty::c_uchar;

/// C `unsigned short`.
pub type USHORT = cty::c_ushort;

/// C `unsigned long`, which is 32 bits wide on Windows: the same type as
/// C `unsigned int`.
pub type ULONG = cty::c_uint;

/// C `long`, which is 32 bits wide on Windows: the same type as C `int`.
pub type LONG = cty::c_int;

/// A 64-bit unsigned integer.
pub type ULONG64 = cty::c_ulonglong;

/// The kernel's one-byte boolean.
pub type BOOLEAN = cty::c_uchar;

/// Status code returned by kernel routines; negative values are errors.
pub type NTSTATUS = LONG;

/// An interrupt request level.
pub type KIRQL = UCHAR;

pub const TRUE: BOOLEAN = 1;

pub const FALSE: BOOLEAN = 0;

pub const STATUS_SUCCESS: NTSTATUS = 0;

/// `0xC0000001`, read as a signed 32-bit value.
pub const STATUS_UNSUCCESSFUL: NTSTATUS = -1073741823i32;

/// `0xC00000F0`: the second parameter of a call is invalid.
pub const STATUS_INVALID_PARAMETER_2: NTSTATUS = -1073741584i32;

/// The interrupt request level at which asynchronous procedure calls run.
pub const APC_LEVEL: KIRQL = 1;

/// Whether `status` reports success: every non-negative status does.
pub open spec fn nt_success(status: NTSTATUS) -> bool {
    status >= 0
}

/// Tells whether a status code reports success.
pub fn NT_SUCCESS(status: NTSTATUS) -> (ok: bool)
    ensures
        ok == nt_success(status),
{
    status >= 0
}

/// The kernel's counted UTF-16 string as the kernel's own headers lay it
/// out, seen through a borrowed buffer. `Length` and `MaximumLength` count
/// bytes; `Buffer` is the memory the string points at (empty for a null
/// pointer).
pub struct UNICODE_STRING<'a> {
    pub Length: USHORT,
    pub MaximumLength: USHORT,
    pub Buffer: &'a [u16],
}

/// A handle to a kernel object, as its numeric value.
pub type HANDLE = usize;

/// An untyped address (zero for null).
pub type PVOID = usize;

/// A size in bytes.
pub type SIZE_T = usize;

/// Object names are compared without regard to case.
pub const OBJ_CASE_INSENSITIVE: ULONG = 0x0000_0040;

/// The handle may be used only in kernel mode.
pub const OBJ_KERNEL_HANDLE: ULONG = 0x0000_0200;

/// All access rights to a filter communication port: connect, together with
/// all the standard rights.
pub const FLT_PORT_ALL_ACCESS: ULONG = 0x001F_0001;

/// The attributes of an object to be opened or created. `ObjectName` is the
/// name, in the kernel's string layout, or `None` for no name.
pub struct OBJECT_ATTRIBUTES<'a> {
    pub Length: ULONG,
    pub RootDirectory: HANDLE,
    pub ObjectName: Option<UNICODE_STRING<'a>>,
    pub Attributes: ULONG,
    pub SecurityDescriptor: PVOID,
    pub SecurityQualityOfService: PVOID,
}

} // verus!
