//! Kernel types and the data-only parts of the kernel interfaces.
pub mod base;
pub mod fltmgr;
pub mod mutex;
