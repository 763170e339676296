//! A verified model of a small Windows kernel-mode support library: counted
//! kernel strings, a fast mutex with a scoped lock, the pool allocator's
//! request, the filter-manager registration builders, and the decisions of a
//! file-system minifilter driver and of the user-mode client that talks to it.
#![allow(non_snake_case)]
#![allow(non_camel_case_types)]
#![allow(non_upper_case_globals)]

pub mod sys;
pub mod string;
pub mod mutex;
pub mod macros;
pub mod kernel_alloc;
pub mod driver;
pub mod client;
