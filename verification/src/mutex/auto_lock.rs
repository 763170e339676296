//! A guard that takes a lock when it is made and gives it back when it is
//! released.
use vstd::prelude::*;
use crate::mutex::locker::Locker;

verus! {

/// Holds a lock, taken when the guard was made, until `release`.
pub struct AutoLock<'a, Lock: Locker> {
    pub l: &'a mut Lock,
}

impl<'a, Lock: Locker> AutoLock<'a, Lock> {
    /// The lock as the guard holds it now.
    pub open spec fn lock(&self) -> Lock {
        *self.l
    }

    /// Takes `locker` and holds it.
    pub fn new(locker: &'a mut Lock) -> (guard: Self)
        requires
            old(locker).is_initialized(),
            !old(locker).is_locked(),
        ensures
            (*old(locker)).lock_step(guard.lock()),
            guard.lock().is_initialized(),
            guard.lock().is_locked(),
            *final(locker) == *final(guard.l),
    {
        locker.Lock();
        AutoLock { l: locker }
    }

    /// Gives the lock back. This stands for dropping the guard: the lock
    /// stays held until the guard is released.
    pub fn release(self)
        requires
            self.lock().is_initialized(),
            self.lock().is_locked(),
        ensures
            self.lock().unlock_step(*final(self.l)),
            final(self.l).is_initialized(),
            !final(self.l).is_locked(),
    {
        self.l.Unlock();
    }
}

} // verus!
