//! A fast mutex that follows the `Locker` protocol.
use vstd::prelude::*;
use crate::mutex::locker::Locker;
use crate::sys::mutex::{ExAcquireFastMutex, ExInitializeFastMutex, ExReleaseFastMutex, FAST_MUTEX};

verus! {

/// A lock over the record of a kernel fast mutex. Locking and unlocking
/// update the record as the kernel's routines do, but make no kernel call:
/// they neither wait for another holder nor raise the interrupt request
/// level.
pub struct FastMutex {
    Mutex: FAST_MUTEX,
}

impl FastMutex {
    /// The kernel record of the mutex.
    pub closed spec fn record(&self) -> FAST_MUTEX {
        self.Mutex
    }

    /// A copy of the kernel record of the mutex.
    pub fn state(&self) -> (m: FAST_MUTEX)
        ensures
            m == self.record(),
    {
        self.Mutex
    }

    /// A fast mutex that still has to be initialized with `Init`.
    pub fn new() -> (m: FastMutex)
        ensures
            m.record() == FAST_MUTEX::fresh(),
            !m.is_initialized(),
    {
        FastMutex { Mutex: FAST_MUTEX::new() }
    }
}

impl Locker for FastMutex {
    open spec fn is_initialized(&self) -> bool {
        self.record().is_initialized()
    }

    open spec fn is_locked(&self) -> bool {
        self.record().is_held()
    }

    open spec fn lock_step(self, after: FastMutex) -> bool {
        self.record().acquires(after.record())
    }

    open spec fn unlock_step(self, after: FastMutex) -> bool {
        self.record().releases(after.record())
    }

    fn Init(&mut self)
        ensures
            old(self).record().initializes(final(self).record()),
    {
        ExInitializeFastMutex(&mut self.Mutex);
    }

    fn Lock(&mut self) {
        ExAcquireFastMutex(&mut self.Mutex);
    }

    fn Unlock(&mut self) {
        ExReleaseFastMutex(&mut self.Mutex);
    }
}

/// A guard's scope over a free fast mutex, one `Lock` and then one
/// `Unlock`, leaves the mutex as it was, but for the saved interrupt
/// request level, which keeps the level at which it was taken.
pub proof fn law_fast_mutex_guard_scope(before: FastMutex, held: FastMutex, after: FastMutex)
    requires
        before.is_initialized(),
        !before.is_locked(),
        before.lock_step(held),
        held.unlock_step(after),
    ensures
        after.record() == (FAST_MUTEX { OldIrql: held.record().OldIrql, ..before.record() }),
        after.is_initialized(),
        !after.is_locked(),
{
    crate::sys::mutex::law_acquire_release(before.record(), held.record(), after.record());
}

} // verus!
