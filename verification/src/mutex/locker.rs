//! The protocol of a lock: initialize once, then lock and unlock in turn.
use vstd::prelude::*;

verus! {

/// A lock that is initialized once and then locked and unlocked in turn.
/// Locking a lock that is locked, or unlocking one that is not, is outside
/// the protocol: the first never returns, the second corrupts the lock.
pub trait Locker: Sized {
    /// Whether the lock has been initialized.
    spec fn is_initialized(&self) -> bool;

    /// Whether the lock is held.
    spec fn is_locked(&self) -> bool;

    /// Whether `after` is what one `Lock` can leave this lock as.
    spec fn lock_step(self, after: Self) -> bool;

    /// Whether `after` is what one `Unlock` can leave this lock as.
    spec fn unlock_step(self, after: Self) -> bool;

    /// Initializes the lock, which is then not held.
    fn Init(&mut self)
        ensures
            final(self).is_initialized(),
            !final(self).is_locked();

    /// Takes the lock.
    fn Lock(&mut self)
        requires
            old(self).is_initialized(),
            !old(self).is_locked(),
        ensures
            (*old(self)).lock_step(*final(self)),
            final(self).is_initialized(),
            final(self).is_locked();

    /// Gives the lock back.
    fn Unlock(&mut self)
        requires
            old(self).is_initialized(),
            old(self).is_locked(),
        ensures
            (*old(self)).unlock_step(*final(self)),
            final(self).is_initialized(),
            !final(self).is_locked();
}

} // verus!
