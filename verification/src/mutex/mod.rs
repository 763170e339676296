//! Locks for kernel code: the `Locker` protocol, the fast mutex that
//! follows it, and a guard that holds a lock for the length of a scope.
pub mod locker;
pub mod fast_mutex;
pub mod auto_lock;
