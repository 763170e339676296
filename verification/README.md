# windows_kernel

A verified model of a small Windows kernel-mode support library and of the
file-system minifilter driver built on it, written in Verus.

- `src/sys/` — kernel types (`base`), the filter manager's operation
  registration record and its builders (`fltmgr`), and the fast mutex record
  with the routines that initialize, take and give it back (`mutex`).
- `src/string.rs` — counted `ANSI_STRING` and `UNICODE_STRING` values, the
  routines that fill them in, the conversions between them, and reading a
  `UNICODE_STRING` back as Rust text.
- `src/mutex/` — the `Locker` protocol, `FastMutex`, and the `AutoLock` guard.
- `src/kernel_alloc.rs` — the pool request behind each allocation, and the
  bug check for unrecoverable errors.
- `src/macros.rs` — `PAGED_CODE` and `InitializeObjectAttributes`.
- `src/driver.rs` — the driver's decisions: the steps of `DriverEntry`, the
  instance and unload callbacks, the registered operations and the message
  exchange with the client.
- `src/client.rs` — the user-mode client's request and the reading of the
  reply.
- `app/` — the user-mode client program, and the kernel-side glue that makes
  the kernel calls the library's decisions name.

Kernel routines cannot be linked into a hosted library, so the string and
mutex routines (`RtlInitAnsiString`, `RtlCreateUnicodeString`,
`RtlAnsiStringToUnicodeString`, `KeInitializeEvent`,
`Ex{Initialize,Acquire,Release}FastMutex`) are carried in the library by
what they do to the records. Nothing here calls the kernel's own versions of
them: `FastMutex` keeps the record of a mutex but does not block other
threads. The glue in `app/` makes the kernel's filter-manager, pool and
bug-check calls that the library's decisions name.
